use vstd::prelude::*;
use crate::editor::EditorState;

verus! {

/// The persisted form of the session state: a flat record of
/// fixed-point values — the eight scalar adjustments, then the curve
/// control point count and the points. Parsing what was serialized
/// reproduces the state exactly, so persistence is lossless.
pub fn serialize_editor_state(state: &EditorState) -> (r: Vec<i64>)
    requires
        state.wf(),
    ensures
        r@.len() == 9 + 2 * state.curve_control_points@.len(),
        r@[0] == state.exposure_val,
        r@[1] == state.contrast_val,
        r@[2] == state.highlights_val,
        r@[3] == state.shadows_val,
        r@[4] == state.temperature_val,
        r@[5] == state.tint_val,
        r@[6] == state.vibrance_val,
        r@[7] == state.saturation_val,
        r@[8] == state.curve_control_points@.len(),
        forall|j: int|
            0 <= j < state.curve_control_points@.len() ==> r@[9 + 2 * j] == (
            #[trigger] state.curve_control_points@[j]).0 && r@[10 + 2 * j]
                == state.curve_control_points@[j].1,
{
    let mut r: Vec<i64> = Vec::new();
    r.push(state.exposure_val);
    r.push(state.contrast_val);
    r.push(state.highlights_val);
    r.push(state.shadows_val);
    r.push(state.temperature_val);
    r.push(state.tint_val);
    r.push(state.vibrance_val);
    r.push(state.saturation_val);
    r.push(state.curve_control_points.len() as i64);
    let n = state.curve_control_points.len();
    let mut j: usize = 0;
    while j < n
        invariant
            0 <= j <= n,
            n == state.curve_control_points@.len(),
            n <= 16,
            r@.len() == 9 + 2 * j,
            r@[0] == state.exposure_val,
            r@[1] == state.contrast_val,
            r@[2] == state.highlights_val,
            r@[3] == state.shadows_val,
            r@[4] == state.temperature_val,
            r@[5] == state.tint_val,
            r@[6] == state.vibrance_val,
            r@[7] == state.saturation_val,
            r@[8] == n,
            forall|k: int|
                0 <= k < j ==> r@[9 + 2 * k] == (#[trigger] state.curve_control_points@[k]).0
                    && r@[10 + 2 * k] == state.curve_control_points@[k].1,
        decreases n - j,
    {
        let p = state.curve_control_points[j];
        r.push(p.0);
        r.push(p.1);
        j = j + 1;
    }
    r
}

/// Reads a serialized session state back. Exactly the records that
/// `serialize_editor_state` writes parse successfully, and parsing
/// reproduces every field of the state that was written.
pub fn parse_editor_state(data: &Vec<i64>) -> (r: Option<EditorState>)
    ensures
        r matches Some(state) ==> {
            &&& data@.len() >= 9
            &&& state.exposure_val == data@[0]
            &&& state.contrast_val == data@[1]
            &&& state.highlights_val == data@[2]
            &&& state.shadows_val == data@[3]
            &&& state.temperature_val == data@[4]
            &&& state.tint_val == data@[5]
            &&& state.vibrance_val == data@[6]
            &&& state.saturation_val == data@[7]
            &&& data@[8] == state.curve_control_points@.len()
            &&& data@.len() == 9 + 2 * state.curve_control_points@.len()
            &&& forall|j: int|
                0 <= j < state.curve_control_points@.len() ==> (
                #[trigger] state.curve_control_points@[j]).0 == data@[9 + 2 * j]
                    && state.curve_control_points@[j].1 == data@[10 + 2 * j]
        },
        r is None ==> !(data@.len() >= 9 && 0 <= data@[8] <= 16 && data@.len() == 9 + 2
            * data@[8]),
{
    if data.len() < 9 {
        return None;
    }
    let count = data[8];
    if count < 0 || count > 16 {
        return None;
    }
    let n = count as usize;
    if data.len() != 9 + 2 * n {
        return None;
    }
    let mut points: Vec<(i64, i64)> = Vec::new();
    let mut j: usize = 0;
    while j < n
        invariant
            0 <= j <= n,
            n <= 16,
            data@.len() == 9 + 2 * n,
            points@.len() == j,
            forall|k: int|
                0 <= k < j ==> (#[trigger] points@[k]).0 == data@[9 + 2 * k] && points@[k].1
                    == data@[10 + 2 * k],
        decreases n - j,
    {
        points.push((data[9 + 2 * j], data[10 + 2 * j]));
        j = j + 1;
    }
    Some(
        EditorState {
            exposure_val: data[0],
            contrast_val: data[1],
            highlights_val: data[2],
            shadows_val: data[3],
            temperature_val: data[4],
            tint_val: data[5],
            vibrance_val: data[6],
            saturation_val: data[7],
            curve_control_points: points,
        },
    )
}

/// Persistence round trip: parsing a serialized session state gives
/// back a state equal to the original in every field, so nothing is
/// lost between sessions.
pub fn editor_state_round_trip(state: &EditorState) -> (r: EditorState)
    requires
        state.wf(),
    ensures
        r.exposure_val == state.exposure_val,
        r.contrast_val == state.contrast_val,
        r.highlights_val == state.highlights_val,
        r.shadows_val == state.shadows_val,
        r.temperature_val == state.temperature_val,
        r.tint_val == state.tint_val,
        r.vibrance_val == state.vibrance_val,
        r.saturation_val == state.saturation_val,
        r.curve_control_points@ == state.curve_control_points@,
{
    let data = serialize_editor_state(state);
    let parsed = match parse_editor_state(&data) {
        Some(p) => p,
        None => {
            proof {
                assert(data@.len() == 9 + 2 * state.curve_control_points@.len());
                assert(data@[8] == state.curve_control_points@.len());
                assert(false);
            }
            EditorState::new()
        },
    };
    proof {
        assert(parsed.curve_control_points@ =~= state.curve_control_points@);
    }
    parsed
}

} // verus!
