use vstd::prelude::*;
use crate::ir::ColorMixGroup;
use crate::ir::Mask;
use crate::math::SCALE;
use crate::rectangle::Rectangle;

verus! {

/// A curve control point list is valid when it starts at (0,0), ends
/// at (1,1), has strictly increasing x, and has between 2 and 16
/// points.
pub open spec fn curve_points_wf(pts: Seq<(i64, i64)>) -> bool {
    &&& 2 <= pts.len() <= 16
    &&& pts[0] == (0i64, 0i64)
    &&& pts[pts.len() - 1] == (SCALE, SCALE)
    &&& forall|i: int| 0 <= i < pts.len() - 1 ==> (#[trigger] pts[i]).0 < pts[i + 1].0
}

/// The identity curve: just the two endpoints.
pub open spec fn curve_points_identity(pts: Seq<(i64, i64)>) -> bool {
    pts =~= seq![(0i64, 0i64), (SCALE, SCALE)]
}

/// All scalar adjustments of one masked edit, plus the curves and the
/// eight color-mixer groups. Values are fixed-point (`SCALE` = 1.0);
/// zero means the adjustment is switched off.
#[derive(Clone)]
pub struct GlobalEdit {
    pub exposure: i64,
    pub contrast: i64,
    pub highlights: i64,
    pub shadows: i64,
    pub curve_control_points_all: Vec<(i64, i64)>,
    pub curve_control_points_r: Vec<(i64, i64)>,
    pub curve_control_points_g: Vec<(i64, i64)>,
    pub curve_control_points_b: Vec<(i64, i64)>,
    pub temperature: i64,
    pub tint: i64,
    pub vibrance: i64,
    pub saturation: i64,
    pub color_mixer_edits: [ColorMixGroup; 8],
    pub dehaze: i64,
    pub vignette: i64,
}

impl GlobalEdit {
    pub open spec fn wf(&self) -> bool {
        &&& curve_points_wf(self.curve_control_points_all@)
        &&& curve_points_wf(self.curve_control_points_r@)
        &&& curve_points_wf(self.curve_control_points_g@)
        &&& curve_points_wf(self.curve_control_points_b@)
    }

    /// No step of the adjustment subgraph would be emitted for this
    /// edit.
    pub open spec fn is_identity(&self) -> bool {
        &&& self.exposure == 0
        &&& self.contrast == 0
        &&& self.highlights == 0
        &&& self.shadows == 0
        &&& curve_points_identity(self.curve_control_points_all@)
        &&& curve_points_identity(self.curve_control_points_r@)
        &&& curve_points_identity(self.curve_control_points_g@)
        &&& curve_points_identity(self.curve_control_points_b@)
        &&& self.temperature == 0
        &&& self.tint == 0
        &&& self.vibrance == 0
        &&& self.saturation == 0
        &&& forall|i: int| 0 <= i < 8 ==> (#[trigger] self.color_mixer_edits@[i]).is_identity()
        &&& self.dehaze == 0
        &&& self.vignette == 0
    }

    pub fn initial_control_points() -> (r: Vec<(i64, i64)>)
        ensures
            curve_points_identity(r@),
            curve_points_wf(r@),
    {
        let mut pts: Vec<(i64, i64)> = Vec::new();
        pts.push((0, 0));
        pts.push((SCALE, SCALE));
        proof {
            assert(pts@ =~= seq![(0i64, 0i64), (SCALE, SCALE)]);
        }
        pts
    }

    pub fn new() -> (r: Self)
        ensures
            r.wf(),
            r.is_identity(),
    {
        let g = GlobalEdit {
            exposure: 0,
            contrast: 0,
            highlights: 0,
            shadows: 0,
            curve_control_points_all: GlobalEdit::initial_control_points(),
            curve_control_points_r: GlobalEdit::initial_control_points(),
            curve_control_points_g: GlobalEdit::initial_control_points(),
            curve_control_points_b: GlobalEdit::initial_control_points(),
            temperature: 0,
            tint: 0,
            vibrance: 0,
            saturation: 0,
            color_mixer_edits: [ColorMixGroup::new(); 8],
            dehaze: 0,
            vignette: 0,
        };
        g
    }
}

/// One mask together with the adjustments it restricts.
#[derive(Clone)]
pub struct MaskedEdit {
    pub mask: Mask,
    pub edit: GlobalEdit,
}

impl MaskedEdit {
    pub fn new(mask: Mask, edit: GlobalEdit) -> (r: Self)
        ensures
            r.mask == mask,
            r.edit == edit,
    {
        Self { mask, edit }
    }
}

/// The user-facing declarative description of the adjustments applied
/// to one image: an optional crop with a rotation, and an ordered list
/// of masked edits.
#[derive(Clone)]
pub struct Edit {
    pub crop: Option<Rectangle>,
    pub rotation_degrees: i64,
    pub masked_edits: Vec<MaskedEdit>,
}

impl Edit {
    /// The first masked edit's mask is the global primitive; every
    /// curve list is valid; the list sizes are bounded so that every
    /// intermediate id fits in the 32-bit id space.
    pub open spec fn wf(&self) -> bool {
        &&& 1 <= self.masked_edits@.len() <= 4096
        &&& self.masked_edits@[0].mask.is_single_global_spec()
        &&& forall|i: int|
            0 <= i < self.masked_edits@.len() ==> (#[trigger] self.masked_edits@[i]).edit.wf()
        &&& forall|i: int|
            0 <= i < self.masked_edits@.len() ==> 1 <= (
            #[trigger] self.masked_edits@[i]).mask.terms@.len() <= 4096
    }

    /// An edit with all defaults and no crop.
    pub open spec fn is_default(&self) -> bool {
        &&& self.crop is None
        &&& self.rotation_degrees == 0
        &&& self.masked_edits@.len() == 1
        &&& self.masked_edits@[0].mask.is_single_global_spec()
        &&& self.masked_edits@[0].edit.is_identity()
    }

    pub fn new() -> (r: Self)
        ensures
            r.wf(),
            r.is_default(),
    {
        let mut masked_edits: Vec<MaskedEdit> = Vec::new();
        masked_edits.push(MaskedEdit::new(Mask::new_global(), GlobalEdit::new()));
        Self { crop: None, rotation_degrees: 0, masked_edits }
    }
}

} // verus!
