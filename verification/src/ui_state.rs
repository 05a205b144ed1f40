use vstd::prelude::*;
use crate::edit::Edit;
use crate::edit::GlobalEdit;
use crate::edit::MaskedEdit;
use crate::ir::Mask;
use crate::ir::MaskPrimitive;
use crate::ir::MaskTerm;

verus! {

/// Which mask, and which of its terms, the editing panel has selected.
pub struct AppUiState {
    pub selected_mask_index: usize,
    pub selected_mask_term_index: Option<usize>,
}

impl AppUiState {
    pub fn new() -> (r: Self)
        ensures
            r.selected_mask_index == 0,
            r.selected_mask_term_index is None,
    {
        AppUiState { selected_mask_index: 0, selected_mask_term_index: None }
    }
}

/// Selects a mask; no term of it starts out selected.
pub fn select_mask(ui_state: &mut AppUiState, mask_index: usize)
    ensures
        final(ui_state).selected_mask_index == mask_index,
        final(ui_state).selected_mask_term_index is None,
{
    ui_state.selected_mask_index = mask_index;
    ui_state.selected_mask_term_index = None;
}

/// Toggles the selection of one term: selecting the selected term
/// deselects it.
pub fn maybe_select_term(ui_state: &mut AppUiState, term_index: usize)
    ensures
        final(ui_state).selected_mask_index == old(ui_state).selected_mask_index,
        old(ui_state).selected_mask_term_index == Some(term_index) ==> final(ui_state).selected_mask_term_index is None,
        old(ui_state).selected_mask_term_index != Some(term_index) ==> final(ui_state).selected_mask_term_index == Some(term_index),
{
    let selected = match ui_state.selected_mask_term_index {
        Some(t) => t == term_index,
        None => false,
    };
    if selected {
        ui_state.selected_mask_term_index = None;
    } else {
        ui_state.selected_mask_term_index = Some(term_index);
    }
}

/// The label of a mask primitive.
pub fn mask_primtive_type_str(primitive: &MaskPrimitive) -> (r: &'static str)
    ensures
        primitive is Global ==> r@ == "Global"@,
        primitive is RadialGradient ==> r@ == "Radial"@,
        primitive is LinearGradient ==> r@ == "Linear"@,
{
    match primitive {
        MaskPrimitive::Global(_) => "Global",
        MaskPrimitive::RadialGradient(_) => "Radial",
        MaskPrimitive::LinearGradient(_) => "Linear",
    }
}

/// The label of the per-row menu button.
pub fn menu_dots() -> (r: String)
    ensures
        r@ == "\u{2022}\u{2022}\u{2022}"@,
{
    "\u{2022}\u{2022}\u{2022}".to_owned()
}

/// Appends a new masked edit whose mask is the single given primitive,
/// with default adjustments, and selects it with its first term.
pub fn add_masked_edit(edit: &mut Edit, ui_state: &mut AppUiState, primitive: MaskPrimitive)
    requires
        old(edit).wf(),
        old(edit).masked_edits@.len() < 4096,
    ensures
        final(edit).wf(),
        final(edit).masked_edits@.len() == old(edit).masked_edits@.len() + 1,
        final(edit).masked_edits@.last().mask.terms@.len() == 1,
        final(edit).masked_edits@.last().mask.terms@[0].primitive == primitive,
        !final(edit).masked_edits@.last().mask.terms@[0].inverted,
        !final(edit).masked_edits@.last().mask.terms@[0].subtracted,
        final(edit).masked_edits@.last().edit.is_identity(),
        forall|j: int|
            0 <= j < old(edit).masked_edits@.len() ==> final(edit).masked_edits@[j] == old(edit).masked_edits@[j],
        final(edit).crop == old(edit).crop,
        final(edit).rotation_degrees == old(edit).rotation_degrees,
        final(ui_state).selected_mask_index == old(edit).masked_edits@.len(),
        final(ui_state).selected_mask_term_index == Some(0usize),
{
    let added_index = edit.masked_edits.len();
    let mut terms: Vec<MaskTerm> = Vec::new();
    terms.push(MaskTerm { primitive, inverted: false, subtracted: false });
    edit.masked_edits.push(MaskedEdit::new(Mask { terms }, GlobalEdit::new()));
    ui_state.selected_mask_index = added_index;
    ui_state.selected_mask_term_index = Some(0);
}

/// Appends one term — added or subtracted — to a mask and selects it.
pub fn add_mask_term(
    mask: &mut Mask,
    ui_state: &mut AppUiState,
    primitive: MaskPrimitive,
    subtracted: bool,
)
    requires
        old(mask).terms@.len() < 4096,
    ensures
        final(mask).terms@ == old(mask).terms@.push(
            MaskTerm { primitive, inverted: false, subtracted },
        ),
        final(ui_state).selected_mask_index == old(ui_state).selected_mask_index,
        final(ui_state).selected_mask_term_index == Some(
            (final(mask).terms@.len() - 1) as usize,
        ),
{
    mask.terms.push(MaskTerm { primitive, inverted: false, subtracted });
    ui_state.selected_mask_term_index = Some(mask.terms.len() - 1);
}

/// Removes one term of one mask; a mask left with no terms is removed
/// whole, and the selection falls back to the global mask. The first
/// masked edit — the global one — is never the target.
pub fn delete_mask_term(
    edit: &mut Edit,
    ui_state: &mut AppUiState,
    mask_index: usize,
    term_index: usize,
)
    requires
        old(edit).wf(),
        1 <= mask_index < old(edit).masked_edits@.len(),
        term_index < old(edit).masked_edits@[mask_index as int].mask.terms@.len(),
    ensures
        final(edit).wf(),
        final(ui_state).selected_mask_term_index is None,
        old(edit).masked_edits@[mask_index as int].mask.terms@.len() == 1 ==> final(edit).masked_edits@.len() == old(edit).masked_edits@.len() - 1 && final(ui_state).selected_mask_index == 0,
        old(edit).masked_edits@[mask_index as int].mask.terms@.len() > 1 ==> final(edit).masked_edits@.len() == old(edit).masked_edits@.len() && final(edit).masked_edits@[mask_index as int].mask.terms@.len() == old(edit).masked_edits@[mask_index as int].mask.terms@.len() - 1,
{
    let terms_len = edit.masked_edits[mask_index].mask.terms.len();
    if terms_len == 1 {
        edit.masked_edits.remove(mask_index);
        ui_state.selected_mask_index = 0;
        proof {
            assert(edit.masked_edits@[0] == old(edit).masked_edits@[0]);
        }
    } else {
        let masked_edit = &mut edit.masked_edits[mask_index];
        masked_edit.mask.terms.remove(term_index);
    }
    ui_state.selected_mask_term_index = None;
}

/// Removes one whole mask and falls back to the global mask. The
/// first masked edit — the global one — is never the target.
pub fn delete_mask(edit: &mut Edit, ui_state: &mut AppUiState, mask_index: usize)
    requires
        old(edit).wf(),
        1 <= mask_index < old(edit).masked_edits@.len(),
    ensures
        final(edit).wf(),
        final(edit).masked_edits@.len() == old(edit).masked_edits@.len() - 1,
        final(ui_state).selected_mask_index == 0,
        final(ui_state).selected_mask_term_index == old(ui_state).selected_mask_term_index,
{
    edit.masked_edits.remove(mask_index);
    ui_state.selected_mask_index = 0;
    proof {
        assert(edit.masked_edits@[0] == old(edit).masked_edits@[0]);
    }
}

} // verus!
