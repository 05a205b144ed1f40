use vstd::prelude::*;
use crate::edit::curve_points_identity;
use crate::edit::curve_points_wf;
use crate::edit::Edit;
use crate::edit::GlobalEdit;
use crate::edit::MaskedEdit;
use crate::ir::AddMaskOp;
use crate::ir::AdjustContrastOp;
use crate::ir::AdjustExposureOp;
use crate::ir::AdjustHighlightsAndShadowsOp;
use crate::ir::AdjustSaturationOp;
use crate::ir::AdjustTemperatureAndTintOp;
use crate::ir::AdjustVibranceOp;
use crate::ir::ApplyCurveOp;
use crate::ir::ApplyDehazeOp;
use crate::ir::ApplyMaskedEditsOp;
use crate::ir::ApplyVignetteOp;
use crate::ir::ColorMixGroup;
use crate::ir::ColorMixOp;
use crate::ir::ComputeBasicStatisticsOp;
use crate::ir::ComputeGlobalMaskOp;
use crate::ir::ComputeLinearGradientMaskOp;
use crate::ir::ComputeRadialGradientMaskOp;
use crate::ir::CurveChannel;
use crate::ir::DehazePrepareOp;
use crate::ir::CollectDataForEditorOp;
use crate::ir::ComputeHistogramOp;
use crate::ir::Id;
use crate::ir::InputOp;
use crate::ir::InvertMaskOp;
use crate::ir::Mask;
use crate::ir::MaskPrimitive;
use crate::ir::MaskTerm;
use crate::ir::Module;
use crate::ir::Op;
use crate::ir::RotateAndCropOp;
use crate::ir::SubtractMaskOp;
use crate::ir::ValueKind;
use crate::rectangle::Rectangle;

verus! {

/// The primitive op emitted for one mask term, before inversion.
pub open spec fn primitive_mask_op(p: MaskPrimitive, result: Id, target: Id) -> Op {
    match p {
        MaskPrimitive::Global(_) => Op::ComputeGlobalMask(ComputeGlobalMaskOp { result, target }),
        MaskPrimitive::RadialGradient(m) => Op::ComputeRadialGradientMask(
            ComputeRadialGradientMaskOp { result, target, mask: m },
        ),
        MaskPrimitive::LinearGradient(m) => Op::ComputeLinearGradientMask(
            ComputeLinearGradientMaskOp { result, target, mask: m },
        ),
    }
}


/// The id of the mask value a term leaves behind, given the allocator
/// position where its ops begin.
pub open spec fn mask_term_result(t: MaskTerm, next: Id) -> Id {
    if !t.inverted {
        next
    } else {
        (next + 1) as u32
    }
}

/// The allocator position after one term's ops.
pub open spec fn mask_term_next(t: MaskTerm, next: Id) -> Id {
    if !t.inverted {
        (next + 1) as u32
    } else {
        (next + 2) as u32
    }
}

/// The ops one term contributes: its primitive, and the inversion when
/// asked for.
pub open spec fn mask_term_ops(t: MaskTerm, target: Id, next: Id) -> Seq<Op> {
    if !t.inverted {
        seq![primitive_mask_op(t.primitive, next, target)]
    } else {
        seq![
            primitive_mask_op(t.primitive, next, target),
            Op::InvertMask(InvertMaskOp { result: (next + 1) as u32, mask_0: next }),
        ]
    }
}

/// The allocator position after compiling the first `k` terms of a
/// mask starting at `next0`: each term's ops, and from the second term
/// on one combinator op.
pub open spec fn mask_next_upto(terms: Seq<MaskTerm>, next0: Id, k: int) -> Id
    decreases k,
{
    if k <= 0 {
        next0
    } else if k == 1 {
        mask_term_next(terms[0], next0)
    } else {
        (mask_term_next(terms[k - 1], mask_next_upto(terms, next0, k - 1)) + 1) as u32
    }
}

/// The id holding the composition of the first `k` terms.
pub open spec fn mask_acc_upto(terms: Seq<MaskTerm>, next0: Id, k: int) -> Id
    decreases k,
{
    if k <= 1 {
        mask_term_result(terms[0], next0)
    } else {
        mask_term_next(terms[k - 1], mask_next_upto(terms, next0, k - 1))
    }
}

/// The ops compiling the first `k` terms of a mask: the first term's
/// ops, then per further term its ops followed by the add or subtract
/// combinator folding it into the running composition.
pub open spec fn mask_ops_upto(terms: Seq<MaskTerm>, target: Id, next0: Id, k: int) -> Seq<Op>
    decreases k,
{
    if k <= 0 {
        Seq::empty()
    } else if k == 1 {
        mask_term_ops(terms[0], target, next0)
    } else {
        let nx = mask_next_upto(terms, next0, k - 1);
        let acc = mask_acc_upto(terms, next0, k - 1);
        let tid = mask_term_result(terms[k - 1], nx);
        let tn = mask_term_next(terms[k - 1], nx);
        let combine = if terms[k - 1].subtracted {
            Op::SubtractMask(SubtractMaskOp { result: tn, mask_0: acc, mask_1: tid })
        } else {
            Op::AddMask(AddMaskOp { result: tn, mask_0: acc, mask_1: tid })
        };
        mask_ops_upto(terms, target, next0, k - 1) + mask_term_ops(terms[k - 1], target, nx).push(
            combine,
        )
    }
}

/// Emits the op computing one mask term's primitive at the working
/// resolution of `target`, followed by an inversion when the term asks
/// for one.
pub fn emit_mask_term(module: &mut Module, term: &MaskTerm, target: Id) -> (r: Id)
    requires
        old(module).wf(),
        old(module).well_typed(),
        old(module).is_defined(target),
        old(module).defines_kind(target, ValueKind::ImageKind),
        old(module).next_id + 2 <= u32::MAX,
    ensures
        final(module).wf(),
        final(module).is_defined(r),
        final(module).is_defined(target),
        forall|x: Id| old(module).is_defined(x) ==> final(module).is_defined(x),
        final(module).input_id == old(module).input_id,
        old(module).is_defined(old(module).output_id) ==> final(module).is_defined(
            final(module).output_id,
        ),
        final(module).well_typed(),
        final(module).defines_kind(r, ValueKind::ImageKind),
        forall|x: Id, k: ValueKind|
            old(module).defines_kind(x, k) ==> final(module).defines_kind(x, k),
        old(module).defines_kind(old(module).output_id, ValueKind::ImageKind) ==> final(module).defines_kind(final(module).output_id, ValueKind::ImageKind),
        final(module).output_id == old(module).output_id,
        old(module).next_id <= final(module).next_id <= old(module).next_id + 2,
        !term.inverted ==> {
            &&& final(module).ops@ == old(module).ops@.push(
                primitive_mask_op(term.primitive, old(module).next_id, target),
            )
            &&& r == old(module).next_id
            &&& final(module).next_id == old(module).next_id + 1
        },
        term.inverted ==> {
            &&& final(module).ops@ == old(module).ops@.push(
                primitive_mask_op(term.primitive, old(module).next_id, target),
            ).push(
                Op::InvertMask(
                    InvertMaskOp {
                        result: (old(module).next_id + 1) as u32,
                        mask_0: old(module).next_id,
                    },
                ),
            )
            &&& r == old(module).next_id + 1
            &&& final(module).next_id == old(module).next_id + 2
        },
{
    let id = module.alloc_id();
    let op = match term.primitive {
        MaskPrimitive::Global(g) => Op::ComputeGlobalMask(
            ComputeGlobalMaskOp { result: id, target },
        ),
        MaskPrimitive::RadialGradient(m) => Op::ComputeRadialGradientMask(
            ComputeRadialGradientMaskOp { result: id, target, mask: m },
        ),
        MaskPrimitive::LinearGradient(m) => Op::ComputeLinearGradientMask(
            ComputeLinearGradientMaskOp { result: id, target, mask: m },
        ),
    };
    module.push_op(op);
    if term.inverted {
        let inverted_id = module.alloc_id();
        module.push_op(Op::InvertMask(InvertMaskOp { result: inverted_id, mask_0: id }));
        inverted_id
    } else {
        id
    }
}

/// Compiles a mask to a sequence of primitive and combinator ops
/// producing one grayscale value at `target`'s resolution: the first
/// term's mask, then each further term added or subtracted in order.
#[verifier::rlimit(100)]
#[verifier::spinoff_prover]
pub fn compile_mask(module: &mut Module, mask: &Mask, target: Id) -> (r: Id)
    requires
        old(module).wf(),
        old(module).well_typed(),
        old(module).is_defined(target),
        old(module).defines_kind(target, ValueKind::ImageKind),
        1 <= mask.terms@.len(),
        old(module).next_id + 3 * mask.terms@.len() <= u32::MAX,
    ensures
        final(module).wf(),
        final(module).is_defined(r),
        final(module).is_defined(target),
        forall|x: Id| old(module).is_defined(x) ==> final(module).is_defined(x),
        final(module).input_id == old(module).input_id,
        old(module).is_defined(old(module).output_id) ==> final(module).is_defined(
            final(module).output_id,
        ),
        final(module).well_typed(),
        final(module).defines_kind(r, ValueKind::ImageKind),
        forall|x: Id, k: ValueKind|
            old(module).defines_kind(x, k) ==> final(module).defines_kind(x, k),
        old(module).defines_kind(old(module).output_id, ValueKind::ImageKind) ==> final(module).defines_kind(final(module).output_id, ValueKind::ImageKind),
        final(module).output_id == old(module).output_id,
        old(module).next_id <= final(module).next_id,
        final(module).next_id <= old(module).next_id + 3 * mask.terms@.len(),
        final(module).ops@ == old(module).ops@ + mask_ops_upto(
            mask.terms@,
            target,
            old(module).next_id,
            mask.terms@.len() as int,
        ),
        r == mask_acc_upto(mask.terms@, old(module).next_id, mask.terms@.len() as int),
        final(module).next_id == mask_next_upto(
            mask.terms@,
            old(module).next_id,
            mask.terms@.len() as int,
        ),
        mask.is_single_global_spec() ==> {
            &&& final(module).ops@ == old(module).ops@.push(
                primitive_mask_op(mask.terms@[0].primitive, old(module).next_id, target),
            )
            &&& r == old(module).next_id
            &&& final(module).next_id == old(module).next_id + 1
        },
{
    let ghost old_m = *module;
    let mut acc = emit_mask_term(module, &mask.terms[0], target);
    let n = mask.terms.len();
    proof {
        assert(module.next_id <= old_m.next_id + 3 * 1);
        assert(module.ops@ =~= old_m.ops@ + mask_ops_upto(
            mask.terms@,
            target,
            old_m.next_id,
            1,
        ));
    }
    let mut i: usize = 1;
    while i < n
        invariant
            1 <= i <= n,
            n == mask.terms@.len(),
            module.wf(),
            module.well_typed(),
            module.is_defined(acc),
            module.is_defined(target),
            module.defines_kind(acc, ValueKind::ImageKind),
            module.defines_kind(target, ValueKind::ImageKind),
            forall|x: Id| old_m.is_defined(x) ==> module.is_defined(x),
            forall|x: Id, k: ValueKind| old_m.defines_kind(x, k) ==> module.defines_kind(x, k),
            module.input_id == old_m.input_id,
            module.output_id == old_m.output_id,
            old_m.next_id <= module.next_id,
            module.next_id <= old_m.next_id + 3 * i,
            old_m.next_id + 3 * n <= u32::MAX,
            module.ops@ == old_m.ops@ + mask_ops_upto(mask.terms@, target, old_m.next_id, i as int),
            acc == mask_acc_upto(mask.terms@, old_m.next_id, i as int),
            module.next_id == mask_next_upto(mask.terms@, old_m.next_id, i as int),
            mask.is_single_global_spec() ==> (module.ops@ == old_m.ops@.push(
                primitive_mask_op(mask.terms@[0].primitive, old_m.next_id, target),
            ) && acc == old_m.next_id && module.next_id == old_m.next_id + 1),
        decreases n - i,
    {
        let term_id = emit_mask_term(module, &mask.terms[i], target);
        let combined_id = module.alloc_id();
        if mask.terms[i].subtracted {
            module.push_op(
                Op::SubtractMask(
                    SubtractMaskOp { result: combined_id, mask_0: acc, mask_1: term_id },
                ),
            );
        } else {
            module.push_op(
                Op::AddMask(AddMaskOp { result: combined_id, mask_0: acc, mask_1: term_id }),
            );
        }
        proof {
            assert(module.ops@ =~= old_m.ops@ + mask_ops_upto(
                mask.terms@,
                target,
                old_m.next_id,
                i + 1,
            ));
        }
        acc = combined_id;
        i = i + 1;
    }
    acc
}


/// Whether step `k` of the fixed adjustment order is the identity for
/// this edit and is therefore not emitted. The steps are: exposure,
/// contrast, highlights and shadows, white balance, vibrance,
/// saturation, the four curves, color mix, dehaze, vignette.
pub open spec fn adjust_step_skipped(g: GlobalEdit, k: int) -> bool {
    if k == 0 {
        g.exposure == 0
    } else if k == 1 {
        g.contrast == 0
    } else if k == 2 {
        g.highlights == 0 && g.shadows == 0
    } else if k == 3 {
        g.temperature == 0 && g.tint == 0
    } else if k == 4 {
        g.vibrance == 0
    } else if k == 5 {
        g.saturation == 0
    } else if k == 6 {
        curve_points_identity(g.curve_control_points_all@)
    } else if k == 7 {
        curve_points_identity(g.curve_control_points_r@)
    } else if k == 8 {
        curve_points_identity(g.curve_control_points_g@)
    } else if k == 9 {
        curve_points_identity(g.curve_control_points_b@)
    } else if k == 10 {
        forall|i: int| 0 <= i < 8 ==> (#[trigger] g.color_mixer_edits@[i]).is_identity()
    } else if k == 11 {
        g.dehaze == 0
    } else {
        g.vignette == 0
    }
}

/// How many ops step `k` emits when it is not skipped.
pub open spec fn adjust_step_len(k: int) -> int {
    if k == 1 || k == 11 {
        2
    } else {
        1
    }
}

/// The ops at position `i` of `s` are exactly step `k`, reading the
/// image at `cur` with ids allocated from `next`.
pub open spec fn adjust_step_matches(g: GlobalEdit, cur: Id, next: Id, s: Seq<Op>, i: int, k: int) -> bool {
    if k == 0 {
        s[i] == Op::AdjustExposure(AdjustExposureOp { result: next, arg: cur, exposure: g.exposure })
    } else if k == 1 {
        s[i] == Op::ComputeBasicStatistics(ComputeBasicStatisticsOp { result: next, arg: cur })
            && s[i + 1] == Op::AdjustContrast(
            AdjustContrastOp {
                result: (next + 1) as u32,
                arg: cur,
                basic_stats: next,
                contrast: g.contrast,
            },
        )
    } else if k == 2 {
        s[i] == Op::AdjustHighlightsAndShadows(
            AdjustHighlightsAndShadowsOp {
                result: next,
                arg: cur,
                highlights: g.highlights,
                shadows: g.shadows,
            },
        )
    } else if k == 3 {
        s[i] == Op::AdjustTemperatureAndTint(
            AdjustTemperatureAndTintOp {
                result: next,
                arg: cur,
                temperature: g.temperature,
                tint: g.tint,
            },
        )
    } else if k == 4 {
        s[i] == Op::AdjustVibrance(AdjustVibranceOp { result: next, arg: cur, vibrance: g.vibrance })
    } else if k == 5 {
        s[i] == Op::AdjustSaturation(
            AdjustSaturationOp { result: next, arg: cur, saturation: g.saturation },
        )
    } else if k == 6 {
        s[i] matches Op::ApplyCurve(o) && o.result == next && o.arg == cur && o.channel
            == CurveChannel::Luma && o.control_points@ == g.curve_control_points_all@
    } else if k == 7 {
        s[i] matches Op::ApplyCurve(o) && o.result == next && o.arg == cur && o.channel
            == CurveChannel::R && o.control_points@ == g.curve_control_points_r@
    } else if k == 8 {
        s[i] matches Op::ApplyCurve(o) && o.result == next && o.arg == cur && o.channel
            == CurveChannel::G && o.control_points@ == g.curve_control_points_g@
    } else if k == 9 {
        s[i] matches Op::ApplyCurve(o) && o.result == next && o.arg == cur && o.channel
            == CurveChannel::B && o.control_points@ == g.curve_control_points_b@
    } else if k == 10 {
        s[i] matches Op::ColorMix(o) && o.result == next && o.arg == cur && o.groups@
            == g.color_mixer_edits@
    } else if k == 11 {
        s[i] == Op::DehazePrepare(DehazePrepareOp { result: next, arg: cur }) && s[i + 1]
            == Op::ApplyDehaze(
            ApplyDehazeOp {
                result: (next + 1) as u32,
                arg: cur,
                dehazed: next,
                amount: g.dehaze,
            },
        )
    } else {
        s[i] == Op::ApplyVignette(ApplyVignetteOp { result: next, arg: cur, vignette: g.vignette })
    }
}

/// How many ops the first `k` steps emit together.
pub open spec fn adjust_len_upto(g: GlobalEdit, k: int) -> int
    decreases k,
{
    if k <= 0 {
        0
    } else {
        adjust_len_upto(g, k - 1) + if adjust_step_skipped(g, k - 1) {
            0int
        } else {
            adjust_step_len(k - 1)
        }
    }
}

/// The image id the subgraph reads after the first `k` steps.
pub open spec fn adjust_cur_upto(g: GlobalEdit, cur0: Id, next0: Id, k: int) -> Id
    decreases k,
{
    if k <= 0 {
        cur0
    } else if adjust_step_skipped(g, k - 1) {
        adjust_cur_upto(g, cur0, next0, k - 1)
    } else {
        (adjust_next_upto(g, next0, k - 1) + adjust_step_len(k - 1) - 1) as u32
    }
}

/// The allocator position after the first `k` steps.
pub open spec fn adjust_next_upto(g: GlobalEdit, next0: Id, k: int) -> Id
    decreases k,
{
    if k <= 0 {
        next0
    } else if adjust_step_skipped(g, k - 1) {
        adjust_next_upto(g, next0, k - 1)
    } else {
        (adjust_next_upto(g, next0, k - 1) + adjust_step_len(k - 1)) as u32
    }
}

/// The ops of `s` from position `i0` on hold the first `k` adjustment
/// steps of `g`, reading from `cur0`, allocating ids from `next0`:
/// each non-identity step's ops in the fixed order, chained through
/// the image each step leaves behind.
pub open spec fn adjust_ops_ok(g: GlobalEdit, cur0: Id, next0: Id, s: Seq<Op>, i0: int, k: int) -> bool
    decreases k,
{
    if k <= 0 {
        true
    } else {
        adjust_ops_ok(g, cur0, next0, s, i0, k - 1) && (adjust_step_skipped(g, k - 1)
            || adjust_step_matches(
            g,
            adjust_cur_upto(g, cur0, next0, k - 1),
            adjust_next_upto(g, next0, k - 1),
            s,
            i0 + adjust_len_upto(g, k - 1),
            k - 1,
        ))
    }
}

/// Compiler monotonicity: a parameter at its identity contributes no
/// op, no id and no image change — the compilation is op-for-op the
/// one in which that step does not exist.
pub proof fn lemma_skipped_step_adds_nothing(g: GlobalEdit, cur0: Id, next0: Id, k: int)
    requires
        0 <= k < 13,
        adjust_step_skipped(g, k),
    ensures
        adjust_len_upto(g, k + 1) == adjust_len_upto(g, k),
        adjust_cur_upto(g, cur0, next0, k + 1) == adjust_cur_upto(g, cur0, next0, k),
        adjust_next_upto(g, next0, k + 1) == adjust_next_upto(g, next0, k),
        forall|s: Seq<Op>, i0: int|
            adjust_ops_ok(g, cur0, next0, s, i0, k) == #[trigger] adjust_ops_ok(
                g,
                cur0,
                next0,
                s,
                i0,
                k + 1,
            ),
{
}

/// Commits one step: from a matched prefix of `k` steps and the ops
/// the step appended (or nothing when skipped), the prefix of `k + 1`
/// steps is matched, with the step's length, image and allocator
/// accounting.
proof fn lemma_adjust_step(
    g: GlobalEdit,
    base: Id,
    next0: Id,
    s_prev: Seq<Op>,
    s_now: Seq<Op>,
    i0: int,
    k: int,
)
    requires
        0 <= i0,
        0 <= k < 13,
        adjust_ops_ok(g, base, next0, s_prev, i0, k),
        s_prev.len() == i0 + adjust_len_upto(g, k),
        adjust_step_skipped(g, k) ==> s_now == s_prev,
        !adjust_step_skipped(g, k) ==> s_now.len() == s_prev.len() + adjust_step_len(k) && (
        forall|p: int| 0 <= p < s_prev.len() ==> s_now[p] == s_prev[p]) && adjust_step_matches(
            g,
            adjust_cur_upto(g, base, next0, k),
            adjust_next_upto(g, next0, k),
            s_now,
            s_prev.len() as int,
            k,
        ),
    ensures
        adjust_ops_ok(g, base, next0, s_now, i0, k + 1),
        adjust_len_upto(g, k + 1) == adjust_len_upto(g, k) + (if adjust_step_skipped(g, k) {
            0int
        } else {
            adjust_step_len(k)
        }),
        s_now.len() == i0 + adjust_len_upto(g, k + 1),
        adjust_cur_upto(g, base, next0, k + 1) == (if adjust_step_skipped(g, k) {
            adjust_cur_upto(g, base, next0, k)
        } else {
            (adjust_next_upto(g, next0, k) + adjust_step_len(k) - 1) as u32
        }),
        adjust_next_upto(g, next0, k + 1) == (if adjust_step_skipped(g, k) {
            adjust_next_upto(g, next0, k)
        } else {
            (adjust_next_upto(g, next0, k) + adjust_step_len(k)) as u32
        }),
{
    lemma_adjust_len_bounds(g, k);
    if !adjust_step_skipped(g, k) {
        lemma_adjust_ok_extend(g, base, next0, s_prev, s_now, i0, k);
    }
}

/// Step counts never shrink.
pub proof fn lemma_adjust_len_bounds(g: GlobalEdit, k: int)
    requires
        0 <= k <= 13,
    ensures
        0 <= adjust_len_upto(g, k) <= 2 * k,
        forall|j: int| 0 <= j <= k ==> 0 <= #[trigger] adjust_len_upto(g, j) <= adjust_len_upto(g, k),
    decreases k,
{
    if k > 0 {
        lemma_adjust_len_bounds(g, k - 1);
    }
}

/// The allocator position moves forward by exactly the emitted length.
proof fn lemma_adjust_next_bounds(g: GlobalEdit, next0: Id, k: int)
    requires
        0 <= k <= 13,
        next0 + 26 <= u32::MAX,
    ensures
        adjust_next_upto(g, next0, k) == next0 + adjust_len_upto(g, k),
    decreases k,
{
    lemma_adjust_len_bounds(g, k);
    if k > 0 {
        lemma_adjust_len_bounds(g, k - 1);
        lemma_adjust_next_bounds(g, next0, k - 1);
    }
}

/// When any step was emitted, the working image is one of the freshly
/// allocated ids, never the base the subgraph started from.
proof fn lemma_adjust_cur_emitted(g: GlobalEdit, base: Id, next0: Id, k: int)
    requires
        0 <= k <= 13,
        next0 + 26 <= u32::MAX,
    ensures
        next0 <= adjust_next_upto(g, next0, k),
        adjust_len_upto(g, k) > 0 ==> adjust_cur_upto(g, base, next0, k) >= next0,
    decreases k,
{
    lemma_adjust_len_bounds(g, k);
    if k > 0 {
        lemma_adjust_len_bounds(g, k - 1);
        lemma_adjust_next_bounds(g, next0, k);
        lemma_adjust_next_bounds(g, next0, k - 1);
        lemma_adjust_cur_emitted(g, base, next0, k - 1);
    }
}

/// An identity edit skips every step.
proof fn lemma_adjust_identity(g: GlobalEdit, base: Id, next0: Id, k: int)
    requires
        0 <= k <= 13,
        g.is_identity(),
    ensures
        adjust_len_upto(g, k) == 0,
        adjust_cur_upto(g, base, next0, k) == base,
        adjust_next_upto(g, next0, k) == next0,
    decreases k,
{
    if k > 0 {
        lemma_adjust_identity(g, base, next0, k - 1);
    }
}

/// A matched adjustment prefix stays matched when the op list grows at
/// the end.
pub proof fn lemma_adjust_ok_extend(
    g: GlobalEdit,
    cur0: Id,
    next0: Id,
    s1: Seq<Op>,
    s2: Seq<Op>,
    i0: int,
    k: int,
)
    requires
        0 <= i0,
        0 <= k <= 13,
        adjust_ops_ok(g, cur0, next0, s1, i0, k),
        i0 + adjust_len_upto(g, k) <= s1.len(),
        s1.len() <= s2.len(),
        forall|p: int| 0 <= p < s1.len() ==> s2[p] == s1[p],
    ensures
        adjust_ops_ok(g, cur0, next0, s2, i0, k),
    decreases k,
{
    if k > 0 {
        lemma_adjust_len_bounds(g, k);
        lemma_adjust_ok_extend(g, cur0, next0, s1, s2, i0, k - 1);
    }
}

impl GlobalEdit {
    /// Emits the exposure step when the parameter is not the identity.
    #[verifier::rlimit(100)]
    #[verifier::spinoff_prover]
    pub fn maybe_add_exposure(&self, module: &mut Module, current_output_id: &mut Id)
        requires
            old(module).wf(),
            old(module).well_typed(),
            old(module).is_defined(*old(current_output_id)),
            old(module).defines_kind(*old(current_output_id), ValueKind::ImageKind),
            old(module).next_id + 2 <= u32::MAX,
        ensures
            final(module).wf(),
            final(module).is_defined(*final(current_output_id)),
            forall|x: Id| old(module).is_defined(x) ==> final(module).is_defined(x),
            final(module).input_id == old(module).input_id,
            old(module).is_defined(old(module).output_id) ==> final(module).is_defined(
                final(module).output_id,
            ),
            final(module).well_typed(),
            final(module).defines_kind(*final(current_output_id), ValueKind::ImageKind),
            forall|x: Id, k: ValueKind|
                old(module).defines_kind(x, k) ==> final(module).defines_kind(x, k),
            old(module).defines_kind(old(module).output_id, ValueKind::ImageKind) ==> final(module).defines_kind(final(module).output_id, ValueKind::ImageKind),
            old(module).next_id <= final(module).next_id <= old(module).next_id + 1,
            self.exposure == 0 ==> *final(module) == *old(module) && *final(current_output_id)
                == *old(current_output_id),
            self.exposure != 0 ==> {
                &&& final(module).ops@ == old(module).ops@.push(
                    Op::AdjustExposure(
                        AdjustExposureOp {
                            result: old(module).next_id,
                            arg: *old(current_output_id),
                            exposure: self.exposure,
                        },
                    ),
                )
                &&& final(module).next_id == old(module).next_id + 1
                &&& final(module).output_id == old(module).next_id
                &&& *final(current_output_id) == old(module).next_id
            },
    {
        if self.exposure != 0 {
            let id = module.alloc_id();
            module.push_op(
                Op::AdjustExposure(
                    AdjustExposureOp { result: id, arg: *current_output_id, exposure: self.exposure },
                ),
            );
            module.set_output_id(id);
            *current_output_id = id;
        }
    }

    /// Emits the contrast step; contrast needs the basic statistics of
    /// its input, so the statistics op is emitted first and its result
    /// feeds the contrast op.
    #[verifier::rlimit(100)]
    #[verifier::spinoff_prover]
    pub fn maybe_add_contrast(&self, module: &mut Module, current_output_id: &mut Id)
        requires
            old(module).wf(),
            old(module).well_typed(),
            old(module).is_defined(*old(current_output_id)),
            old(module).defines_kind(*old(current_output_id), ValueKind::ImageKind),
            old(module).next_id + 2 <= u32::MAX,
        ensures
            final(module).wf(),
            final(module).is_defined(*final(current_output_id)),
            forall|x: Id| old(module).is_defined(x) ==> final(module).is_defined(x),
            final(module).input_id == old(module).input_id,
            old(module).is_defined(old(module).output_id) ==> final(module).is_defined(
                final(module).output_id,
            ),
            final(module).well_typed(),
            final(module).defines_kind(*final(current_output_id), ValueKind::ImageKind),
            forall|x: Id, k: ValueKind|
                old(module).defines_kind(x, k) ==> final(module).defines_kind(x, k),
            old(module).defines_kind(old(module).output_id, ValueKind::ImageKind) ==> final(module).defines_kind(final(module).output_id, ValueKind::ImageKind),
            old(module).next_id <= final(module).next_id <= old(module).next_id + 2,
            self.contrast == 0 ==> *final(module) == *old(module) && *final(current_output_id)
                == *old(current_output_id),
            self.contrast != 0 ==> {
                &&& final(module).ops@ == old(module).ops@.push(
                    Op::ComputeBasicStatistics(
                        ComputeBasicStatisticsOp {
                            result: old(module).next_id,
                            arg: *old(current_output_id),
                        },
                    ),
                ).push(
                    Op::AdjustContrast(
                        AdjustContrastOp {
                            result: (old(module).next_id + 1) as u32,
                            arg: *old(current_output_id),
                            basic_stats: old(module).next_id,
                            contrast: self.contrast,
                        },
                    ),
                )
                &&& final(module).next_id == old(module).next_id + 2
                &&& final(module).output_id == old(module).next_id + 1
                &&& *final(current_output_id) == old(module).next_id + 1
            },
    {
        if self.contrast != 0 {
            let basic_stats_id = module.alloc_id();
            module.push_op(
                Op::ComputeBasicStatistics(
                    ComputeBasicStatisticsOp { result: basic_stats_id, arg: *current_output_id },
                ),
            );
            let id = module.alloc_id();
            module.push_op(
                Op::AdjustContrast(
                    AdjustContrastOp {
                        result: id,
                        arg: *current_output_id,
                        basic_stats: basic_stats_id,
                        contrast: self.contrast,
                    },
                ),
            );
            module.set_output_id(id);
            *current_output_id = id;
        }
    }

    /// Emits the combined highlights and shadows step when either
    /// parameter is not the identity; one op handles both.
    #[verifier::rlimit(100)]
    #[verifier::spinoff_prover]
    pub fn maybe_add_highlights_and_shadows(&self, module: &mut Module, current_output_id: &mut Id)
        requires
            old(module).wf(),
            old(module).well_typed(),
            old(module).is_defined(*old(current_output_id)),
            old(module).defines_kind(*old(current_output_id), ValueKind::ImageKind),
            old(module).next_id + 2 <= u32::MAX,
        ensures
            final(module).wf(),
            final(module).is_defined(*final(current_output_id)),
            forall|x: Id| old(module).is_defined(x) ==> final(module).is_defined(x),
            final(module).input_id == old(module).input_id,
            old(module).is_defined(old(module).output_id) ==> final(module).is_defined(
                final(module).output_id,
            ),
            final(module).well_typed(),
            final(module).defines_kind(*final(current_output_id), ValueKind::ImageKind),
            forall|x: Id, k: ValueKind|
                old(module).defines_kind(x, k) ==> final(module).defines_kind(x, k),
            old(module).defines_kind(old(module).output_id, ValueKind::ImageKind) ==> final(module).defines_kind(final(module).output_id, ValueKind::ImageKind),
            old(module).next_id <= final(module).next_id <= old(module).next_id + 1,
            self.highlights == 0 && self.shadows == 0 ==> *final(module) == *old(module) && *final(current_output_id) == *old(current_output_id),
            self.highlights != 0 || self.shadows != 0 ==> {
                &&& final(module).ops@ == old(module).ops@.push(
                    Op::AdjustHighlightsAndShadows(
                        AdjustHighlightsAndShadowsOp {
                            result: old(module).next_id,
                            arg: *old(current_output_id),
                            highlights: self.highlights,
                            shadows: self.shadows,
                        },
                    ),
                )
                &&& final(module).next_id == old(module).next_id + 1
                &&& final(module).output_id == old(module).next_id
                &&& *final(current_output_id) == old(module).next_id
            },
    {
        if self.highlights != 0 || self.shadows != 0 {
            let id = module.alloc_id();
            module.push_op(
                Op::AdjustHighlightsAndShadows(
                    AdjustHighlightsAndShadowsOp {
                        result: id,
                        arg: *current_output_id,
                        highlights: self.highlights,
                        shadows: self.shadows,
                    },
                ),
            );
            module.set_output_id(id);
            *current_output_id = id;
        }
    }

    /// Emits the white-balance step when either temperature or tint is
    /// not the identity; the two share one op.
    #[verifier::rlimit(100)]
    #[verifier::spinoff_prover]
    pub fn maybe_add_temperature_tint(&self, module: &mut Module, current_output_id: &mut Id)
        requires
            old(module).wf(),
            old(module).well_typed(),
            old(module).is_defined(*old(current_output_id)),
            old(module).defines_kind(*old(current_output_id), ValueKind::ImageKind),
            old(module).next_id + 2 <= u32::MAX,
        ensures
            final(module).wf(),
            final(module).is_defined(*final(current_output_id)),
            forall|x: Id| old(module).is_defined(x) ==> final(module).is_defined(x),
            final(module).input_id == old(module).input_id,
            old(module).is_defined(old(module).output_id) ==> final(module).is_defined(
                final(module).output_id,
            ),
            final(module).well_typed(),
            final(module).defines_kind(*final(current_output_id), ValueKind::ImageKind),
            forall|x: Id, k: ValueKind|
                old(module).defines_kind(x, k) ==> final(module).defines_kind(x, k),
            old(module).defines_kind(old(module).output_id, ValueKind::ImageKind) ==> final(module).defines_kind(final(module).output_id, ValueKind::ImageKind),
            old(module).next_id <= final(module).next_id <= old(module).next_id + 1,
            self.temperature == 0 && self.tint == 0 ==> *final(module) == *old(module) && *final(current_output_id) == *old(current_output_id),
            self.temperature != 0 || self.tint != 0 ==> {
                &&& final(module).ops@ == old(module).ops@.push(
                    Op::AdjustTemperatureAndTint(
                        AdjustTemperatureAndTintOp {
                            result: old(module).next_id,
                            arg: *old(current_output_id),
                            temperature: self.temperature,
                            tint: self.tint,
                        },
                    ),
                )
                &&& final(module).next_id == old(module).next_id + 1
                &&& final(module).output_id == old(module).next_id
                &&& *final(current_output_id) == old(module).next_id
            },
    {
        if self.temperature != 0 || self.tint != 0 {
            let id = module.alloc_id();
            module.push_op(
                Op::AdjustTemperatureAndTint(
                    AdjustTemperatureAndTintOp {
                        result: id,
                        arg: *current_output_id,
                        temperature: self.temperature,
                        tint: self.tint,
                    },
                ),
            );
            module.set_output_id(id);
            *current_output_id = id;
        }
    }

    /// Emits the vibrance step when the parameter is not the identity.
    #[verifier::rlimit(100)]
    #[verifier::spinoff_prover]
    pub fn maybe_add_vibrance(&self, module: &mut Module, current_output_id: &mut Id)
        requires
            old(module).wf(),
            old(module).well_typed(),
            old(module).is_defined(*old(current_output_id)),
            old(module).defines_kind(*old(current_output_id), ValueKind::ImageKind),
            old(module).next_id + 2 <= u32::MAX,
        ensures
            final(module).wf(),
            final(module).is_defined(*final(current_output_id)),
            forall|x: Id| old(module).is_defined(x) ==> final(module).is_defined(x),
            final(module).input_id == old(module).input_id,
            old(module).is_defined(old(module).output_id) ==> final(module).is_defined(
                final(module).output_id,
            ),
            final(module).well_typed(),
            final(module).defines_kind(*final(current_output_id), ValueKind::ImageKind),
            forall|x: Id, k: ValueKind|
                old(module).defines_kind(x, k) ==> final(module).defines_kind(x, k),
            old(module).defines_kind(old(module).output_id, ValueKind::ImageKind) ==> final(module).defines_kind(final(module).output_id, ValueKind::ImageKind),
            old(module).next_id <= final(module).next_id <= old(module).next_id + 1,
            self.vibrance == 0 ==> *final(module) == *old(module) && *final(current_output_id)
                == *old(current_output_id),
            self.vibrance != 0 ==> {
                &&& final(module).ops@ == old(module).ops@.push(
                    Op::AdjustVibrance(
                        AdjustVibranceOp {
                            result: old(module).next_id,
                            arg: *old(current_output_id),
                            vibrance: self.vibrance,
                        },
                    ),
                )
                &&& final(module).next_id == old(module).next_id + 1
                &&& final(module).output_id == old(module).next_id
                &&& *final(current_output_id) == old(module).next_id
            },
    {
        if self.vibrance != 0 {
            let id = module.alloc_id();
            module.push_op(
                Op::AdjustVibrance(
                    AdjustVibranceOp { result: id, arg: *current_output_id, vibrance: self.vibrance },
                ),
            );
            module.set_output_id(id);
            *current_output_id = id;
        }
    }

    /// Emits the saturation step when the parameter is not the
    /// identity.
    #[verifier::rlimit(100)]
    #[verifier::spinoff_prover]
    pub fn maybe_add_saturation(&self, module: &mut Module, current_output_id: &mut Id)
        requires
            old(module).wf(),
            old(module).well_typed(),
            old(module).is_defined(*old(current_output_id)),
            old(module).defines_kind(*old(current_output_id), ValueKind::ImageKind),
            old(module).next_id + 2 <= u32::MAX,
        ensures
            final(module).wf(),
            final(module).is_defined(*final(current_output_id)),
            forall|x: Id| old(module).is_defined(x) ==> final(module).is_defined(x),
            final(module).input_id == old(module).input_id,
            old(module).is_defined(old(module).output_id) ==> final(module).is_defined(
                final(module).output_id,
            ),
            final(module).well_typed(),
            final(module).defines_kind(*final(current_output_id), ValueKind::ImageKind),
            forall|x: Id, k: ValueKind|
                old(module).defines_kind(x, k) ==> final(module).defines_kind(x, k),
            old(module).defines_kind(old(module).output_id, ValueKind::ImageKind) ==> final(module).defines_kind(final(module).output_id, ValueKind::ImageKind),
            old(module).next_id <= final(module).next_id <= old(module).next_id + 1,
            self.saturation == 0 ==> *final(module) == *old(module) && *final(current_output_id)
                == *old(current_output_id),
            self.saturation != 0 ==> {
                &&& final(module).ops@ == old(module).ops@.push(
                    Op::AdjustSaturation(
                        AdjustSaturationOp {
                            result: old(module).next_id,
                            arg: *old(current_output_id),
                            saturation: self.saturation,
                        },
                    ),
                )
                &&& final(module).next_id == old(module).next_id + 1
                &&& final(module).output_id == old(module).next_id
                &&& *final(current_output_id) == old(module).next_id
            },
    {
        if self.saturation != 0 {
            let id = module.alloc_id();
            module.push_op(
                Op::AdjustSaturation(
                    AdjustSaturationOp {
                        result: id,
                        arg: *current_output_id,
                        saturation: self.saturation,
                    },
                ),
            );
            module.set_output_id(id);
            *current_output_id = id;
        }
    }
}

/// Copies a control point list element by element.
fn copy_points(points: &Vec<(i64, i64)>) -> (r: Vec<(i64, i64)>)
    ensures
        r@ == points@,
{
    let mut r: Vec<(i64, i64)> = Vec::new();
    let mut i: usize = 0;
    while i < points.len()
        invariant
            0 <= i <= points@.len(),
            r@ == points@.take(i as int),
        decreases points@.len() - i,
    {
        r.push(points[i]);
        proof {
            assert(r@ =~= points@.take(i + 1));
        }
        i = i + 1;
    }
    proof {
        assert(points@.take(points@.len() as int) =~= points@);
    }
    r
}

/// Emits one per-channel curve step when the control points differ
/// from the identity curve, which, for a valid list, is exactly when
/// there are more than the two endpoint points.
pub fn maybe_add_curve(
    points: &Vec<(i64, i64)>,
    channel: CurveChannel,
    module: &mut Module,
    current_output_id: &mut Id,
)
    requires
        curve_points_wf(points@),
        old(module).wf(),
        old(module).well_typed(),
        old(module).is_defined(*old(current_output_id)),
        old(module).defines_kind(*old(current_output_id), ValueKind::ImageKind),
        old(module).next_id + 2 <= u32::MAX,
    ensures
        final(module).wf(),
        final(module).is_defined(*final(current_output_id)),
        forall|x: Id| old(module).is_defined(x) ==> final(module).is_defined(x),
        final(module).input_id == old(module).input_id,
        old(module).is_defined(old(module).output_id) ==> final(module).is_defined(
            final(module).output_id,
        ),
        final(module).well_typed(),
        final(module).defines_kind(*final(current_output_id), ValueKind::ImageKind),
        forall|x: Id, k: ValueKind|
            old(module).defines_kind(x, k) ==> final(module).defines_kind(x, k),
        old(module).defines_kind(old(module).output_id, ValueKind::ImageKind) ==> final(module).defines_kind(final(module).output_id, ValueKind::ImageKind),
        old(module).next_id <= final(module).next_id <= old(module).next_id + 1,
        curve_points_identity(points@) ==> *final(module) == *old(module) && *final(current_output_id) == *old(current_output_id),
        !curve_points_identity(points@) ==> exists|o: ApplyCurveOp|
            {
                &&& final(module).ops@ == old(module).ops@.push(Op::ApplyCurve(o))
                &&& o.result == old(module).next_id
                &&& o.arg == *old(current_output_id)
                &&& o.channel == channel
                &&& o.control_points@ == points@
                &&& final(module).next_id == old(module).next_id + 1
                &&& final(module).output_id == old(module).next_id
                &&& *final(current_output_id) == old(module).next_id
            },
{
    let ghost old_m = *old(module);
    if points.len() > 2 {
        let id = module.alloc_id();
        let op = ApplyCurveOp {
            result: id,
            arg: *current_output_id,
            channel,
            control_points: copy_points(points),
        };
        let ghost o = op;
        module.push_op(Op::ApplyCurve(op));
        module.set_output_id(id);
        *current_output_id = id;
        proof {
            assert(!curve_points_identity(points@));
            assert(module.ops@ == old_m.ops@.push(Op::ApplyCurve(o)) && o.result == old_m.next_id
                && o.channel == channel && o.control_points@ == points@);
        }
    } else {
        proof {
            assert(points@ =~= seq![(0i64, 0i64), (crate::math::SCALE, crate::math::SCALE)]);
        }
    }
}

/// Emits the color mixer step when any of the eight hue groups is not
/// the identity.
pub fn maybe_add_color_mix(
    groups: &[ColorMixGroup; 8],
    module: &mut Module,
    current_output_id: &mut Id,
)
    requires
        old(module).wf(),
        old(module).well_typed(),
        old(module).is_defined(*old(current_output_id)),
        old(module).defines_kind(*old(current_output_id), ValueKind::ImageKind),
        old(module).next_id + 2 <= u32::MAX,
    ensures
        final(module).wf(),
        final(module).is_defined(*final(current_output_id)),
        forall|x: Id| old(module).is_defined(x) ==> final(module).is_defined(x),
        final(module).input_id == old(module).input_id,
        old(module).is_defined(old(module).output_id) ==> final(module).is_defined(
            final(module).output_id,
        ),
        final(module).well_typed(),
        final(module).defines_kind(*final(current_output_id), ValueKind::ImageKind),
        forall|x: Id, k: ValueKind|
            old(module).defines_kind(x, k) ==> final(module).defines_kind(x, k),
        old(module).defines_kind(old(module).output_id, ValueKind::ImageKind) ==> final(module).defines_kind(final(module).output_id, ValueKind::ImageKind),
        old(module).next_id <= final(module).next_id <= old(module).next_id + 1,
        (forall|i: int| 0 <= i < 8 ==> (#[trigger] groups@[i]).is_identity()) ==> *final(module)
            == *old(module) && *final(current_output_id) == *old(current_output_id),
        !(forall|i: int| 0 <= i < 8 ==> (#[trigger] groups@[i]).is_identity()) ==> exists|
            o: ColorMixOp,
        |
            {
                &&& final(module).ops@ == old(module).ops@.push(Op::ColorMix(o))
                &&& o.result == old(module).next_id
                &&& o.arg == *old(current_output_id)
                &&& o.groups@ == groups@
                &&& final(module).next_id == old(module).next_id + 1
                &&& final(module).output_id == old(module).next_id
                &&& *final(current_output_id) == old(module).next_id
            },
{
    let mut any: bool = false;
    let mut i: usize = 0;
    while i < 8
        invariant
            0 <= i <= 8,
            any == !(forall|j: int| 0 <= j < i ==> (#[trigger] groups@[j]).is_identity()),
        decreases 8 - i,
    {
        let g = groups[i];
        if g.hue != 0 || g.saturation != 0 || g.lightness != 0 {
            any = true;
        }
        i = i + 1;
    }
    if any {
        let id = module.alloc_id();
        let op = ColorMixOp { result: id, arg: *current_output_id, groups: *groups };
        let ghost o = op;
        module.push_op(Op::ColorMix(op));
        module.set_output_id(id);
        *current_output_id = id;
        proof {
            assert(module.ops@ == old(module).ops@.push(Op::ColorMix(o)) && o.result == old(module).next_id && o.groups@ == groups@);
        }
    }
}

impl GlobalEdit {
    /// Emits the two-pass dehaze when the parameter is not the
    /// identity: a preparation op estimating the haze, then the op
    /// combining it with the input.
    #[verifier::rlimit(100)]
    #[verifier::spinoff_prover]
    pub fn maybe_add_dehaze(&self, module: &mut Module, current_output_id: &mut Id)
        requires
            old(module).wf(),
            old(module).well_typed(),
            old(module).is_defined(*old(current_output_id)),
            old(module).defines_kind(*old(current_output_id), ValueKind::ImageKind),
            old(module).next_id + 2 <= u32::MAX,
        ensures
            final(module).wf(),
            final(module).is_defined(*final(current_output_id)),
            forall|x: Id| old(module).is_defined(x) ==> final(module).is_defined(x),
            final(module).input_id == old(module).input_id,
            old(module).is_defined(old(module).output_id) ==> final(module).is_defined(
                final(module).output_id,
            ),
            final(module).well_typed(),
            final(module).defines_kind(*final(current_output_id), ValueKind::ImageKind),
            forall|x: Id, k: ValueKind|
                old(module).defines_kind(x, k) ==> final(module).defines_kind(x, k),
            old(module).defines_kind(old(module).output_id, ValueKind::ImageKind) ==> final(module).defines_kind(final(module).output_id, ValueKind::ImageKind),
            old(module).next_id <= final(module).next_id <= old(module).next_id + 2,
            self.dehaze == 0 ==> *final(module) == *old(module) && *final(current_output_id)
                == *old(current_output_id),
            self.dehaze != 0 ==> {
                &&& final(module).ops@ == old(module).ops@.push(
                    Op::DehazePrepare(
                        DehazePrepareOp {
                            result: old(module).next_id,
                            arg: *old(current_output_id),
                        },
                    ),
                ).push(
                    Op::ApplyDehaze(
                        ApplyDehazeOp {
                            result: (old(module).next_id + 1) as u32,
                            arg: *old(current_output_id),
                            dehazed: old(module).next_id,
                            amount: self.dehaze,
                        },
                    ),
                )
                &&& final(module).next_id == old(module).next_id + 2
                &&& final(module).output_id == old(module).next_id + 1
                &&& *final(current_output_id) == old(module).next_id + 1
            },
    {
        if self.dehaze != 0 {
            let prepared_id = module.alloc_id();
            module.push_op(
                Op::DehazePrepare(DehazePrepareOp { result: prepared_id, arg: *current_output_id }),
            );
            let id = module.alloc_id();
            module.push_op(
                Op::ApplyDehaze(
                    ApplyDehazeOp {
                        result: id,
                        arg: *current_output_id,
                        dehazed: prepared_id,
                        amount: self.dehaze,
                    },
                ),
            );
            module.set_output_id(id);
            *current_output_id = id;
        }
    }

    /// Emits the vignette step when the parameter is not the identity.
    #[verifier::rlimit(100)]
    #[verifier::spinoff_prover]
    pub fn maybe_add_vignette(&self, module: &mut Module, current_output_id: &mut Id)
        requires
            old(module).wf(),
            old(module).well_typed(),
            old(module).is_defined(*old(current_output_id)),
            old(module).defines_kind(*old(current_output_id), ValueKind::ImageKind),
            old(module).next_id + 2 <= u32::MAX,
        ensures
            final(module).wf(),
            final(module).is_defined(*final(current_output_id)),
            forall|x: Id| old(module).is_defined(x) ==> final(module).is_defined(x),
            final(module).input_id == old(module).input_id,
            old(module).is_defined(old(module).output_id) ==> final(module).is_defined(
                final(module).output_id,
            ),
            final(module).well_typed(),
            final(module).defines_kind(*final(current_output_id), ValueKind::ImageKind),
            forall|x: Id, k: ValueKind|
                old(module).defines_kind(x, k) ==> final(module).defines_kind(x, k),
            old(module).defines_kind(old(module).output_id, ValueKind::ImageKind) ==> final(module).defines_kind(final(module).output_id, ValueKind::ImageKind),
            old(module).next_id <= final(module).next_id <= old(module).next_id + 1,
            self.vignette == 0 ==> *final(module) == *old(module) && *final(current_output_id)
                == *old(current_output_id),
            self.vignette != 0 ==> {
                &&& final(module).ops@ == old(module).ops@.push(
                    Op::ApplyVignette(
                        ApplyVignetteOp {
                            result: old(module).next_id,
                            arg: *old(current_output_id),
                            vignette: self.vignette,
                        },
                    ),
                )
                &&& final(module).next_id == old(module).next_id + 1
                &&& final(module).output_id == old(module).next_id
                &&& *final(current_output_id) == old(module).next_id
            },
    {
        if self.vignette != 0 {
            let id = module.alloc_id();
            module.push_op(
                Op::ApplyVignette(
                    ApplyVignetteOp { result: id, arg: *current_output_id, vignette: self.vignette },
                ),
            );
            module.set_output_id(id);
            *current_output_id = id;
        }
    }

    /// Emits the whole adjustment subgraph for this edit, reading from
    /// `base`, in the fixed order: exposure, contrast, highlights and
    /// shadows, white balance, vibrance, saturation, the four curves,
    /// color mix, dehaze, vignette. Each step is emitted only when its
    /// parameter is not the identity; the appended ops are exactly the
    /// non-identity steps in order, chained through the image each step
    /// leaves behind.
    #[verifier::rlimit(100)]
    #[verifier::spinoff_prover]
    pub fn add_adjustments_to_module(&self, module: &mut Module, base: Id) -> (adjusted: Id)
        requires
            self.wf(),
            old(module).wf(),
            old(module).well_typed(),
            old(module).is_defined(base),
            old(module).defines_kind(base, ValueKind::ImageKind),
            old(module).next_id + 26 <= u32::MAX,
        ensures
            final(module).wf(),
            final(module).is_defined(adjusted),
            forall|x: Id| old(module).is_defined(x) ==> final(module).is_defined(x),
            final(module).input_id == old(module).input_id,
            old(module).is_defined(old(module).output_id) ==> final(module).is_defined(
                final(module).output_id,
            ),
            final(module).well_typed(),
            final(module).defines_kind(adjusted, ValueKind::ImageKind),
            forall|x: Id, k: ValueKind|
                old(module).defines_kind(x, k) ==> final(module).defines_kind(x, k),
            old(module).defines_kind(old(module).output_id, ValueKind::ImageKind) ==> final(module).defines_kind(final(module).output_id, ValueKind::ImageKind),
            old(module).next_id <= final(module).next_id <= old(module).next_id + 26,
            self.is_identity() ==> *final(module) == *old(module) && adjusted == base,
            final(module).ops@.len() == old(module).ops@.len() + adjust_len_upto(*self, 13),
            forall|p: int|
                0 <= p < old(module).ops@.len() ==> final(module).ops@[p] == old(module).ops@[p],
            adjust_ops_ok(*self, base, old(module).next_id, final(module).ops@, old(module).ops@.len() as int, 13),
            adjusted == adjust_cur_upto(*self, base, old(module).next_id, 13),
            final(module).next_id == adjust_next_upto(*self, old(module).next_id, 13),
            adjust_len_upto(*self, 13) == 0 ==> final(module).output_id == old(module).output_id
                && adjusted == base,
            adjust_len_upto(*self, 13) > 0 ==> final(module).output_id == adjusted,
    {
        let ghost g = *self;
        let ghost i0 = old(module).ops@.len() as int;
        let ghost next0 = old(module).next_id;
        proof {
            assert(adjust_ops_ok(g, base, next0, module.ops@, i0, 0));
            assert(adjust_len_upto(g, 0) == 0);
            assert(adjust_cur_upto(g, base, next0, 0) == base);
            assert(adjust_next_upto(g, next0, 0) == next0);
        }
        let adjusted = self.add_basic_light_steps(
            module,
            base,
            Ghost(base),
            Ghost(next0),
            Ghost(i0),
        );
        proof {
            lemma_adjust_len_bounds(g, 13);
            lemma_adjust_next_bounds(g, next0, 13);
            if g.is_identity() {
                lemma_adjust_identity(g, base, next0, 13);
            }
        }
        adjusted
    }

    /// The first stretch of the fixed adjustment order: exposure,
    /// contrast, highlights and shadows; the contract carries the whole
    /// subgraph's accounting through to the last step.
    #[verifier::rlimit(100)]
    #[verifier::spinoff_prover]
    fn add_basic_light_steps(
        &self,
        module: &mut Module,
        current_in: Id,
        Ghost(base): Ghost<Id>,
        Ghost(next0): Ghost<Id>,
        Ghost(i0): Ghost<int>,
    ) -> (adjusted: Id)
        requires
            self.wf(),
            old(module).wf(),
            old(module).well_typed(),
            old(module).is_defined(current_in),
            old(module).defines_kind(current_in, ValueKind::ImageKind),
            old(module).next_id + 26 <= u32::MAX,
            0 <= i0,
            old(module).ops@.len() == i0 + adjust_len_upto(*self, 0),
            adjust_ops_ok(*self, base, next0, old(module).ops@, i0, 0),
            current_in == adjust_cur_upto(*self, base, next0, 0),
            old(module).next_id == adjust_next_upto(*self, next0, 0),
            adjust_len_upto(*self, 0) > 0 ==> old(module).output_id == current_in,
        ensures
            final(module).wf(),
            final(module).is_defined(adjusted),
            forall|x: Id| old(module).is_defined(x) ==> final(module).is_defined(x),
            final(module).input_id == old(module).input_id,
            old(module).is_defined(old(module).output_id) ==> final(module).is_defined(
                final(module).output_id,
            ),
            final(module).well_typed(),
            final(module).defines_kind(adjusted, ValueKind::ImageKind),
            forall|x: Id, k: ValueKind|
                old(module).defines_kind(x, k) ==> final(module).defines_kind(x, k),
            old(module).defines_kind(old(module).output_id, ValueKind::ImageKind) ==> final(module).defines_kind(final(module).output_id, ValueKind::ImageKind),
            old(module).next_id <= final(module).next_id,
            final(module).ops@.len() == i0 + adjust_len_upto(*self, 13),
            forall|p: int|
                0 <= p < old(module).ops@.len() ==> final(module).ops@[p] == old(module).ops@[p],
            adjust_ops_ok(*self, base, next0, final(module).ops@, i0, 13),
            adjusted == adjust_cur_upto(*self, base, next0, 13),
            final(module).next_id == adjust_next_upto(*self, next0, 13),
            adjust_len_upto(*self, 13) == adjust_len_upto(*self, 0) ==> *final(module)
                == *old(module) && adjusted == current_in,
            adjust_len_upto(*self, 13) > 0 ==> final(module).output_id == adjusted,
    {
        let ghost g = *self;
        let mut current: Id = current_in;
        proof {
            lemma_adjust_len_bounds(g, 13);
        }
        let ghost prev_ops = module.ops@;
        self.maybe_add_exposure(module, &mut current);
        proof {
            if !adjust_step_skipped(g, 0) {
                assert(adjust_step_matches(
                    g,
                    adjust_cur_upto(g, base, next0, 0),
                    adjust_next_upto(g, next0, 0),
                    module.ops@,
                    prev_ops.len() as int,
                    0,
                ));
            }
            lemma_adjust_step(g, base, next0, prev_ops, module.ops@, i0, 0);
            assert(current == adjust_cur_upto(g, base, next0, 1));
            assert(module.next_id == adjust_next_upto(g, next0, 1));
            assert(adjust_len_upto(g, 1) > 0 ==> module.output_id == current);
        }
        let ghost prev_ops = module.ops@;
        self.maybe_add_contrast(module, &mut current);
        proof {
            if !adjust_step_skipped(g, 1) {
                assert(adjust_step_matches(
                    g,
                    adjust_cur_upto(g, base, next0, 1),
                    adjust_next_upto(g, next0, 1),
                    module.ops@,
                    prev_ops.len() as int,
                    1,
                ));
            }
            lemma_adjust_step(g, base, next0, prev_ops, module.ops@, i0, 1);
            assert(current == adjust_cur_upto(g, base, next0, 2));
            assert(module.next_id == adjust_next_upto(g, next0, 2));
            assert(adjust_len_upto(g, 2) > 0 ==> module.output_id == current);
        }
        let ghost prev_ops = module.ops@;
        self.maybe_add_highlights_and_shadows(module, &mut current);
        proof {
            if !adjust_step_skipped(g, 2) {
                assert(adjust_step_matches(
                    g,
                    adjust_cur_upto(g, base, next0, 2),
                    adjust_next_upto(g, next0, 2),
                    module.ops@,
                    prev_ops.len() as int,
                    2,
                ));
            }
            lemma_adjust_step(g, base, next0, prev_ops, module.ops@, i0, 2);
            assert(current == adjust_cur_upto(g, base, next0, 3));
            assert(module.next_id == adjust_next_upto(g, next0, 3));
            assert(adjust_len_upto(g, 3) > 0 ==> module.output_id == current);
        }
        let adjusted = self.add_white_balance_steps(
            module,
            current,
            Ghost(base),
            Ghost(next0),
            Ghost(i0),
        );
        adjusted
    }

    /// One stretch of the fixed adjustment order; the contract carries
    /// the whole subgraph's accounting through to the last step.
    #[verifier::rlimit(100)]
    #[verifier::spinoff_prover]
    fn add_white_balance_steps(
        &self,
        module: &mut Module,
        current_in: Id,
        Ghost(base): Ghost<Id>,
        Ghost(next0): Ghost<Id>,
        Ghost(i0): Ghost<int>,
    ) -> (adjusted: Id)
        requires
            self.wf(),
            old(module).wf(),
            old(module).well_typed(),
            old(module).is_defined(current_in),
            old(module).defines_kind(current_in, ValueKind::ImageKind),
            old(module).next_id + 20 <= u32::MAX,
            0 <= i0,
            old(module).ops@.len() == i0 + adjust_len_upto(*self, 3),
            adjust_ops_ok(*self, base, next0, old(module).ops@, i0, 3),
            current_in == adjust_cur_upto(*self, base, next0, 3),
            old(module).next_id == adjust_next_upto(*self, next0, 3),
            adjust_len_upto(*self, 3) > 0 ==> old(module).output_id == current_in,
        ensures
            final(module).wf(),
            final(module).is_defined(adjusted),
            forall|x: Id| old(module).is_defined(x) ==> final(module).is_defined(x),
            final(module).input_id == old(module).input_id,
            old(module).is_defined(old(module).output_id) ==> final(module).is_defined(
                final(module).output_id,
            ),
            final(module).well_typed(),
            final(module).defines_kind(adjusted, ValueKind::ImageKind),
            forall|x: Id, k: ValueKind|
                old(module).defines_kind(x, k) ==> final(module).defines_kind(x, k),
            old(module).defines_kind(old(module).output_id, ValueKind::ImageKind) ==> final(module).defines_kind(final(module).output_id, ValueKind::ImageKind),
            old(module).next_id <= final(module).next_id,
            final(module).ops@.len() == i0 + adjust_len_upto(*self, 13),
            forall|p: int|
                0 <= p < old(module).ops@.len() ==> final(module).ops@[p] == old(module).ops@[p],
            adjust_ops_ok(*self, base, next0, final(module).ops@, i0, 13),
            adjusted == adjust_cur_upto(*self, base, next0, 13),
            final(module).next_id == adjust_next_upto(*self, next0, 13),
            adjust_len_upto(*self, 13) == adjust_len_upto(*self, 3) ==> *final(module)
                == *old(module) && adjusted == current_in,
            adjust_len_upto(*self, 13) > 0 ==> final(module).output_id == adjusted,
    {
        let ghost g = *self;
        let mut current: Id = current_in;
        proof {
            lemma_adjust_len_bounds(g, 13);
        }
        let ghost prev_ops = module.ops@;
        self.maybe_add_temperature_tint(module, &mut current);
        proof {
            if !adjust_step_skipped(g, 3) {
                assert(adjust_step_matches(
                    g,
                    adjust_cur_upto(g, base, next0, 3),
                    adjust_next_upto(g, next0, 3),
                    module.ops@,
                    prev_ops.len() as int,
                    3,
                ));
            }
            lemma_adjust_step(g, base, next0, prev_ops, module.ops@, i0, 3);
            assert(current == adjust_cur_upto(g, base, next0, 4));
            assert(module.next_id == adjust_next_upto(g, next0, 4));
            assert(adjust_len_upto(g, 4) > 0 ==> module.output_id == current);
        }
        let ghost prev_ops = module.ops@;
        self.maybe_add_vibrance(module, &mut current);
        proof {
            if !adjust_step_skipped(g, 4) {
                assert(adjust_step_matches(
                    g,
                    adjust_cur_upto(g, base, next0, 4),
                    adjust_next_upto(g, next0, 4),
                    module.ops@,
                    prev_ops.len() as int,
                    4,
                ));
            }
            lemma_adjust_step(g, base, next0, prev_ops, module.ops@, i0, 4);
            assert(current == adjust_cur_upto(g, base, next0, 5));
            assert(module.next_id == adjust_next_upto(g, next0, 5));
            assert(adjust_len_upto(g, 5) > 0 ==> module.output_id == current);
        }
        let ghost prev_ops = module.ops@;
        self.maybe_add_saturation(module, &mut current);
        proof {
            if !adjust_step_skipped(g, 5) {
                assert(adjust_step_matches(
                    g,
                    adjust_cur_upto(g, base, next0, 5),
                    adjust_next_upto(g, next0, 5),
                    module.ops@,
                    prev_ops.len() as int,
                    5,
                ));
            }
            lemma_adjust_step(g, base, next0, prev_ops, module.ops@, i0, 5);
            assert(current == adjust_cur_upto(g, base, next0, 6));
            assert(module.next_id == adjust_next_upto(g, next0, 6));
            assert(adjust_len_upto(g, 6) > 0 ==> module.output_id == current);
        }
        let ghost prev_ops = module.ops@;
        maybe_add_curve(&self.curve_control_points_all, CurveChannel::Luma, module, &mut current);
        proof {
            if !adjust_step_skipped(g, 6) {
                assert(adjust_step_matches(
                    g,
                    adjust_cur_upto(g, base, next0, 6),
                    adjust_next_upto(g, next0, 6),
                    module.ops@,
                    prev_ops.len() as int,
                    6,
                ));
            }
            lemma_adjust_step(g, base, next0, prev_ops, module.ops@, i0, 6);
            assert(current == adjust_cur_upto(g, base, next0, 7));
            assert(module.next_id == adjust_next_upto(g, next0, 7));
            assert(adjust_len_upto(g, 7) > 0 ==> module.output_id == current);
        }
        let adjusted = self.add_color_curve_steps(module, current, Ghost(base), Ghost(next0), Ghost(i0));
        adjusted
    }
    /// One stretch of the fixed adjustment order; the contract carries
    /// the whole subgraph's accounting through to the last step.
    #[verifier::rlimit(100)]
    #[verifier::spinoff_prover]
    fn add_color_curve_steps(
        &self,
        module: &mut Module,
        current_in: Id,
        Ghost(base): Ghost<Id>,
        Ghost(next0): Ghost<Id>,
        Ghost(i0): Ghost<int>,
    ) -> (adjusted: Id)
        requires
            self.wf(),
            old(module).wf(),
            old(module).well_typed(),
            old(module).is_defined(current_in),
            old(module).defines_kind(current_in, ValueKind::ImageKind),
            old(module).next_id + 12 <= u32::MAX,
            0 <= i0,
            old(module).ops@.len() == i0 + adjust_len_upto(*self, 7),
            adjust_ops_ok(*self, base, next0, old(module).ops@, i0, 7),
            current_in == adjust_cur_upto(*self, base, next0, 7),
            old(module).next_id == adjust_next_upto(*self, next0, 7),
            adjust_len_upto(*self, 7) > 0 ==> old(module).output_id == current_in,
        ensures
            final(module).wf(),
            final(module).is_defined(adjusted),
            forall|x: Id| old(module).is_defined(x) ==> final(module).is_defined(x),
            final(module).input_id == old(module).input_id,
            old(module).is_defined(old(module).output_id) ==> final(module).is_defined(
                final(module).output_id,
            ),
            final(module).well_typed(),
            final(module).defines_kind(adjusted, ValueKind::ImageKind),
            forall|x: Id, k: ValueKind|
                old(module).defines_kind(x, k) ==> final(module).defines_kind(x, k),
            old(module).defines_kind(old(module).output_id, ValueKind::ImageKind) ==> final(module).defines_kind(final(module).output_id, ValueKind::ImageKind),
            old(module).next_id <= final(module).next_id,
            final(module).ops@.len() == i0 + adjust_len_upto(*self, 13),
            forall|p: int|
                0 <= p < old(module).ops@.len() ==> final(module).ops@[p] == old(module).ops@[p],
            adjust_ops_ok(*self, base, next0, final(module).ops@, i0, 13),
            adjusted == adjust_cur_upto(*self, base, next0, 13),
            final(module).next_id == adjust_next_upto(*self, next0, 13),
            adjust_len_upto(*self, 13) == adjust_len_upto(*self, 7) ==> *final(module)
                == *old(module) && adjusted == current_in,
            adjust_len_upto(*self, 13) > 0 ==> final(module).output_id == adjusted,
    {
        let ghost g = *self;
        let mut current: Id = current_in;
        proof {
            lemma_adjust_len_bounds(g, 13);
        }
        let ghost prev_ops = module.ops@;
        maybe_add_curve(&self.curve_control_points_r, CurveChannel::R, module, &mut current);
        proof {
            if !adjust_step_skipped(g, 7) {
                assert(adjust_step_matches(
                    g,
                    adjust_cur_upto(g, base, next0, 7),
                    adjust_next_upto(g, next0, 7),
                    module.ops@,
                    prev_ops.len() as int,
                    7,
                ));
            }
            lemma_adjust_step(g, base, next0, prev_ops, module.ops@, i0, 7);
            assert(current == adjust_cur_upto(g, base, next0, 8));
            assert(module.next_id == adjust_next_upto(g, next0, 8));
            assert(adjust_len_upto(g, 8) > 0 ==> module.output_id == current);
        }
        let ghost prev_ops = module.ops@;
        maybe_add_curve(&self.curve_control_points_g, CurveChannel::G, module, &mut current);
        proof {
            if !adjust_step_skipped(g, 8) {
                assert(adjust_step_matches(
                    g,
                    adjust_cur_upto(g, base, next0, 8),
                    adjust_next_upto(g, next0, 8),
                    module.ops@,
                    prev_ops.len() as int,
                    8,
                ));
            }
            lemma_adjust_step(g, base, next0, prev_ops, module.ops@, i0, 8);
            assert(current == adjust_cur_upto(g, base, next0, 9));
            assert(module.next_id == adjust_next_upto(g, next0, 9));
            assert(adjust_len_upto(g, 9) > 0 ==> module.output_id == current);
        }
        let ghost prev_ops = module.ops@;
        maybe_add_curve(&self.curve_control_points_b, CurveChannel::B, module, &mut current);
        proof {
            if !adjust_step_skipped(g, 9) {
                assert(adjust_step_matches(
                    g,
                    adjust_cur_upto(g, base, next0, 9),
                    adjust_next_upto(g, next0, 9),
                    module.ops@,
                    prev_ops.len() as int,
                    9,
                ));
            }
            lemma_adjust_step(g, base, next0, prev_ops, module.ops@, i0, 9);
            assert(current == adjust_cur_upto(g, base, next0, 10));
            assert(module.next_id == adjust_next_upto(g, next0, 10));
            assert(adjust_len_upto(g, 10) > 0 ==> module.output_id == current);
        }
        let adjusted = self.add_finishing_steps(module, current, Ghost(base), Ghost(next0), Ghost(i0));
        adjusted
    }
    /// One stretch of the fixed adjustment order; the contract carries
    /// the whole subgraph's accounting through to the last step.
    #[verifier::rlimit(100)]
    #[verifier::spinoff_prover]
    fn add_finishing_steps(
        &self,
        module: &mut Module,
        current_in: Id,
        Ghost(base): Ghost<Id>,
        Ghost(next0): Ghost<Id>,
        Ghost(i0): Ghost<int>,
    ) -> (adjusted: Id)
        requires
            self.wf(),
            old(module).wf(),
            old(module).well_typed(),
            old(module).is_defined(current_in),
            old(module).defines_kind(current_in, ValueKind::ImageKind),
            old(module).next_id + 8 <= u32::MAX,
            0 <= i0,
            old(module).ops@.len() == i0 + adjust_len_upto(*self, 10),
            adjust_ops_ok(*self, base, next0, old(module).ops@, i0, 10),
            current_in == adjust_cur_upto(*self, base, next0, 10),
            old(module).next_id == adjust_next_upto(*self, next0, 10),
            adjust_len_upto(*self, 10) > 0 ==> old(module).output_id == current_in,
        ensures
            final(module).wf(),
            final(module).is_defined(adjusted),
            forall|x: Id| old(module).is_defined(x) ==> final(module).is_defined(x),
            final(module).input_id == old(module).input_id,
            old(module).is_defined(old(module).output_id) ==> final(module).is_defined(
                final(module).output_id,
            ),
            final(module).well_typed(),
            final(module).defines_kind(adjusted, ValueKind::ImageKind),
            forall|x: Id, k: ValueKind|
                old(module).defines_kind(x, k) ==> final(module).defines_kind(x, k),
            old(module).defines_kind(old(module).output_id, ValueKind::ImageKind) ==> final(module).defines_kind(final(module).output_id, ValueKind::ImageKind),
            old(module).next_id <= final(module).next_id,
            final(module).ops@.len() == i0 + adjust_len_upto(*self, 13),
            forall|p: int|
                0 <= p < old(module).ops@.len() ==> final(module).ops@[p] == old(module).ops@[p],
            adjust_ops_ok(*self, base, next0, final(module).ops@, i0, 13),
            adjusted == adjust_cur_upto(*self, base, next0, 13),
            final(module).next_id == adjust_next_upto(*self, next0, 13),
            adjust_len_upto(*self, 13) == adjust_len_upto(*self, 10) ==> *final(module)
                == *old(module) && adjusted == current_in,
            adjust_len_upto(*self, 13) > 0 ==> final(module).output_id == adjusted,
    {
        let ghost g = *self;
        let mut current: Id = current_in;
        proof {
            lemma_adjust_len_bounds(g, 13);
        }
        let ghost prev_ops = module.ops@;
        maybe_add_color_mix(&self.color_mixer_edits, module, &mut current);
        proof {
            if !adjust_step_skipped(g, 10) {
                assert(adjust_step_matches(
                    g,
                    adjust_cur_upto(g, base, next0, 10),
                    adjust_next_upto(g, next0, 10),
                    module.ops@,
                    prev_ops.len() as int,
                    10,
                ));
            }
            lemma_adjust_step(g, base, next0, prev_ops, module.ops@, i0, 10);
            assert(current == adjust_cur_upto(g, base, next0, 11));
            assert(module.next_id == adjust_next_upto(g, next0, 11));
            assert(adjust_len_upto(g, 11) > 0 ==> module.output_id == current);
        }
        let ghost prev_ops = module.ops@;
        self.maybe_add_dehaze(module, &mut current);
        proof {
            if !adjust_step_skipped(g, 11) {
                assert(adjust_step_matches(
                    g,
                    adjust_cur_upto(g, base, next0, 11),
                    adjust_next_upto(g, next0, 11),
                    module.ops@,
                    prev_ops.len() as int,
                    11,
                ));
            }
            lemma_adjust_step(g, base, next0, prev_ops, module.ops@, i0, 11);
            assert(current == adjust_cur_upto(g, base, next0, 12));
            assert(module.next_id == adjust_next_upto(g, next0, 12));
            assert(adjust_len_upto(g, 12) > 0 ==> module.output_id == current);
        }
        let ghost prev_ops = module.ops@;
        self.maybe_add_vignette(module, &mut current);
        proof {
            if !adjust_step_skipped(g, 12) {
                assert(adjust_step_matches(
                    g,
                    adjust_cur_upto(g, base, next0, 12),
                    adjust_next_upto(g, next0, 12),
                    module.ops@,
                    prev_ops.len() as int,
                    12,
                ));
            }
            lemma_adjust_step(g, base, next0, prev_ops, module.ops@, i0, 12);
            assert(current == adjust_cur_upto(g, base, next0, 13));
            assert(module.next_id == adjust_next_upto(g, next0, 13));
            assert(adjust_len_upto(g, 13) > 0 ==> module.output_id == current);
        }
        current
    }
}


/// Whether the edit asks for no reframing at all: no crop beyond the
/// whole image, and no rotation.
pub open spec fn edit_crop_is_identity(e: Edit) -> bool {
    &&& (match e.crop {
        Some(r) => r == Rectangle::regular_spec(),
        None => true,
    })
    &&& e.rotation_degrees == 0
}

/// The rectangle the crop op carries: the requested crop, or the whole
/// image when none was requested.
pub open spec fn edit_crop_rect(e: Edit) -> Rectangle {
    match e.crop {
        Some(r) => r,
        None => Rectangle::regular_spec(),
    }
}

/// The working image id entering the masked-edit chain: the input, or
/// the crop op's result when one is emitted.
pub open spec fn edit_base_cur(e: Edit) -> Id {
    if edit_crop_is_identity(e) {
        0u32
    } else {
        1u32
    }
}

/// The allocator position entering the masked-edit chain.
pub open spec fn edit_base_next(e: Edit) -> Id {
    if edit_crop_is_identity(e) {
        1u32
    } else {
        2u32
    }
}

/// The op position entering the masked-edit chain.
pub open spec fn edit_base_pos(e: Edit) -> int {
    if edit_crop_is_identity(e) {
        1
    } else {
        2
    }
}

/// An edit whose one masked edit is the identity under the global
/// mask, with no reframing: compiling it touches nothing but the
/// statistics tail.
pub open spec fn edit_compiles_to_identity(e: Edit) -> bool {
    &&& edit_crop_is_identity(e)
    &&& e.masked_edits@.len() == 1
    &&& e.masked_edits@[0].mask.is_single_global_spec()
    &&& e.masked_edits@[0].edit.is_identity()
}

impl Edit {
    /// Lowers this edit to a module: the input op; the rotated crop if
    /// one is requested and is not the identity; per masked edit its
    /// mask, its adjustment subgraph and the op blending the adjusted
    /// image over the base by the mask; finally the histogram chain.
    ///
    /// The result is well formed: no id is defined twice and every
    /// operand refers to an earlier op. An edit with all defaults and
    /// no crop compiles to a module whose output is its input.
    #[verifier::rlimit(100)]
    pub fn to_ir_module(&self) -> (m: Module)
        requires
            self.wf(),
        ensures
            m.wf(),
            m.well_typed(),
            m.is_defined(m.output_id),
            m.is_defined(m.input_id),
            m.defines_kind(m.output_id, ValueKind::ImageKind),
            m.input_id == 0,
            m.ops@.len() >= 3,
            m.ops@[0] == Op::Input(InputOp { result: 0u32 }),
            m.next_id >= 3,
            m.ops@[m.ops@.len() - 2] == Op::ComputeHistogram(
                ComputeHistogramOp { result: (m.next_id - 2) as u32, arg: m.output_id },
            ),
            m.ops@[m.ops@.len() - 1] == Op::CollectDataForEditor(
                CollectDataForEditorOp {
                    result: (m.next_id - 1) as u32,
                    histogram_final: (m.next_id - 2) as u32,
                },
            ),
            !edit_crop_is_identity(*self) ==> m.ops@.len() >= 4 && m.ops@[1] == Op::RotateAndCrop(
                RotateAndCropOp {
                    result: 1u32,
                    arg: 0u32,
                    rect: edit_crop_rect(*self),
                    rotation_degrees: self.rotation_degrees,
                },
            ),
            m.ops@.len() == edits_pos_upto(
                self.masked_edits@,
                edit_base_cur(*self),
                edit_base_next(*self),
                edit_base_pos(*self),
                self.masked_edits@.len() as int,
            ) + 2,
            edits_ops_ok(
                self.masked_edits@,
                edit_base_cur(*self),
                edit_base_next(*self),
                m.ops@,
                edit_base_pos(*self),
                self.masked_edits@.len() as int,
            ),
            edit_compiles_to_identity(*self) ==> m.output_id == m.input_id && m.next_id == 4
                && m.ops@ =~= seq![
                Op::Input(InputOp { result: 0u32 }),
                Op::ComputeGlobalMask(ComputeGlobalMaskOp { result: 1u32, target: 0u32 }),
                Op::ComputeHistogram(ComputeHistogramOp { result: 2u32, arg: 0u32 }),
                Op::CollectDataForEditor(
                    CollectDataForEditorOp { result: 3u32, histogram_final: 2u32 },
                ),
            ],
            self.is_default() ==> m.output_id == m.input_id,
    {
        let mut module = Module::new_trivial();
        let mut current: Id = module.get_output_id();
        proof {
            assert(module.is_defined(0));
        }

        let crop_rect: Rectangle = match self.crop {
            Some(r) => r,
            None => Rectangle::regular(),
        };
        let crop_is_identity = match self.crop {
            Some(r) => {
                let reg = Rectangle::regular();
                r.center.x == reg.center.x && r.center.y == reg.center.y && r.size.x == reg.size.x
                    && r.size.y == reg.size.y && self.rotation_degrees == 0
            },
            None => self.rotation_degrees == 0,
        };
        proof {
            assert(crop_is_identity == edit_crop_is_identity(*self));
        }
        if !crop_is_identity {
            let id = module.alloc_id();
            module.push_op(
                Op::RotateAndCrop(
                    RotateAndCropOp {
                        result: id,
                        arg: current,
                        rect: crop_rect,
                        rotation_degrees: self.rotation_degrees,
                    },
                ),
            );
            module.set_output_id(id);
            current = id;
        }
        let ghost eds = self.masked_edits@;
        let ghost cur0 = edit_base_cur(*self);
        let ghost next0 = edit_base_next(*self);
        let ghost pos0 = edit_base_pos(*self);
        proof {
            assert(current == cur0);
            assert(module.next_id == next0);
            assert(module.ops@.len() == pos0);
        }

        let n = self.masked_edits.len();
        let mut i: usize = 0;
        while i < n
            invariant
                0 <= i <= n,
                n == self.masked_edits@.len(),
                self.wf(),
                module.wf(),
                module.well_typed(),
                module.is_defined(current),
                module.is_defined(module.input_id),
                module.is_defined(module.output_id),
                module.defines_kind(current, ValueKind::ImageKind),
                module.defines_kind(module.output_id, ValueKind::ImageKind),
                module.next_id <= 2 + 12340 * i,
                module.ops@.len() >= 1,
                module.ops@[0] == Op::Input(InputOp { result: 0u32 }),
                module.input_id == 0,
                !edit_crop_is_identity(*self) ==> module.ops@.len() >= 2 && module.ops@[1]
                    == Op::RotateAndCrop(
                    RotateAndCropOp {
                        result: 1u32,
                        arg: 0u32,
                        rect: edit_crop_rect(*self),
                        rotation_degrees: self.rotation_degrees,
                    },
                ),
                edit_compiles_to_identity(*self) ==> current == module.input_id
                    && module.output_id == module.input_id && module.next_id == (if i == 0 {
                    1int
                } else {
                    2int
                }) && (i == 0 ==> module.ops@ =~= seq![Op::Input(InputOp { result: 0u32 })]) && (
                i == 1 ==> module.ops@ =~= seq![
                    Op::Input(InputOp { result: 0u32 }),
                    Op::ComputeGlobalMask(ComputeGlobalMaskOp { result: 1u32, target: 0u32 }),
                ]),
                self.is_default() ==> current == module.input_id && module.output_id
                    == module.input_id,
                eds == self.masked_edits@,
                cur0 == edit_base_cur(*self),
                next0 == edit_base_next(*self),
                pos0 == edit_base_pos(*self),
                current == edits_cur_upto(eds, cur0, next0, i as int),
                module.next_id == edits_next_upto(eds, cur0, next0, i as int),
                module.ops@.len() == edits_pos_upto(eds, cur0, next0, pos0, i as int),
                edits_ops_ok(eds, cur0, next0, module.ops@, pos0, i as int),
            decreases n - i,
        {
            proof {
                assert(self.masked_edits@[i as int].mask.terms@.len() <= 4096);
                assert(module.next_id + 3 * self.masked_edits@[i as int].mask.terms@.len() + 28
                    <= u32::MAX);
            }
            let masked_edit = &self.masked_edits[i];
            let ghost pre_ops = module.ops@;
            let ghost pre_cur = current;
            let ghost pre_next = module.next_id;
            current = compile_masked_edit(&mut module, masked_edit, current);
            proof {
                lemma_edits_pos_nonneg(eds, cur0, next0, pos0, i as int);
                lemma_edits_ops_ok_extend(eds, cur0, next0, pre_ops, module.ops@, pos0, i as int);
                assert(masked_edit_ops_ok(
                    eds[i as int],
                    pre_cur,
                    pre_next,
                    module.ops@,
                    pre_ops.len() as int,
                ));
                assert(edits_ops_ok(eds, cur0, next0, module.ops@, pos0, i + 1));
                assert(current == edits_cur_upto(eds, cur0, next0, i + 1));
                assert(module.next_id == edits_next_upto(eds, cur0, next0, i + 1));
                assert(module.ops@.len() == edits_pos_upto(eds, cur0, next0, pos0, i + 1));
            }
            i = i + 1;
        }

        let ghost pre_stats = module.ops@;
        module.add_statistics_ops();
        proof {
            lemma_edits_ops_ok_extend(eds, cur0, next0, pre_stats, module.ops@, pos0, n as int);
        }
        module
    }
}

/// Pushes the blend op combining an adjusted image over its base by a
/// mask, and makes it the module output.
#[verifier::spinoff_prover]
fn push_blend(module: &mut Module, base: Id, adjusted: Id, mask_id: Id) -> (id: Id)
    requires
        old(module).wf(),
        old(module).well_typed(),
        old(module).is_defined(base),
        old(module).is_defined(adjusted),
        old(module).is_defined(mask_id),
        old(module).defines_kind(base, ValueKind::ImageKind),
        old(module).defines_kind(adjusted, ValueKind::ImageKind),
        old(module).defines_kind(mask_id, ValueKind::ImageKind),
        old(module).next_id < u32::MAX,
    ensures
        final(module).wf(),
        final(module).well_typed(),
        id == old(module).next_id,
        final(module).next_id == old(module).next_id + 1,
        final(module).input_id == old(module).input_id,
        final(module).output_id == id,
        final(module).ops@ == old(module).ops@.push(
            Op::ApplyMaskedEdits(ApplyMaskedEditsOp { result: id, base, adjusted, mask: mask_id }),
        ),
        final(module).is_defined(id),
        final(module).defines_kind(id, ValueKind::ImageKind),
        forall|x: Id| old(module).is_defined(x) ==> final(module).is_defined(x),
        forall|x: Id, k: ValueKind|
            old(module).defines_kind(x, k) ==> final(module).defines_kind(x, k),
{
    let id = module.alloc_id();
    module.push_op(
        Op::ApplyMaskedEdits(ApplyMaskedEditsOp { result: id, base, adjusted, mask: mask_id }),
    );
    module.set_output_id(id);
    id
}

/// Compiles one masked edit against the current output: its mask at
/// the working resolution, its adjustment subgraph reading from
/// `current`, and — when any adjustment was emitted — the op blending
/// the adjusted image over `current` by the mask. The blended image
/// (or `current`, when the edit is the identity) is the new output.
#[verifier::rlimit(100)]
#[verifier::spinoff_prover]
pub fn compile_masked_edit(module: &mut Module, masked_edit: &MaskedEdit, current: Id) -> (r: Id)
    requires
        masked_edit.edit.wf(),
        1 <= masked_edit.mask.terms@.len(),
        old(module).wf(),
        old(module).well_typed(),
        old(module).is_defined(current),
        old(module).defines_kind(current, ValueKind::ImageKind),
        old(module).next_id + 3 * masked_edit.mask.terms@.len() + 28 <= u32::MAX,
    ensures
        final(module).wf(),
        final(module).well_typed(),
        final(module).is_defined(r),
        final(module).defines_kind(r, ValueKind::ImageKind),
        forall|x: Id| old(module).is_defined(x) ==> final(module).is_defined(x),
        forall|x: Id, k: ValueKind|
            old(module).defines_kind(x, k) ==> final(module).defines_kind(x, k),
        final(module).input_id == old(module).input_id,
        old(module).next_id <= final(module).next_id <= old(module).next_id + 3
            * masked_edit.mask.terms@.len() + 27,
        forall|p: int|
            0 <= p < old(module).ops@.len() ==> final(module).ops@[p] == old(module).ops@[p],
        final(module).ops@.len() > old(module).ops@.len(),
        masked_edit.edit.is_identity() ==> r == current,
        masked_edit.mask.is_single_global_spec() && masked_edit.edit.is_identity() ==> final(module).ops@ == old(module).ops@.push(
            Op::ComputeGlobalMask(
                ComputeGlobalMaskOp { result: old(module).next_id, target: current },
            ),
        ) && final(module).next_id == old(module).next_id + 1,
        r == current ==> final(module).output_id == old(module).output_id,
        r != current ==> final(module).output_id == r,
        compile_masked_edit_ok(*masked_edit, current, old(module).next_id, final(module).ops@, old(module).ops@.len() as int),
        r == masked_edit_result(*masked_edit, current, old(module).next_id),
        final(module).next_id == masked_edit_next(*masked_edit, current, old(module).next_id),
{
    let ghost m0 = *module;
    let ghost i0 = m0.ops@.len() as int;
    let ghost terms = masked_edit.mask.terms@;
    let ghost mask_ops = mask_ops_upto(terms, current, m0.next_id, terms.len() as int);
    let mask_id = compile_mask(module, &masked_edit.mask, current);
    let ghost m1 = *module;
    let adjusted = masked_edit.edit.add_adjustments_to_module(module, current);
    let ghost m2 = *module;
    proof {
        lemma_adjust_len_bounds(masked_edit.edit, 13);
        lemma_adjust_next_bounds(masked_edit.edit, m1.next_id, 13);
        if masked_edit.edit.is_identity() {
            lemma_adjust_identity(masked_edit.edit, current, m1.next_id, 13);
        }
        assert(current < m0.next_id) by {
            let j = choose|j: int|
                0 <= j < m0.ops@.len() && (#[trigger] m0.ops@[j].result_id()) == current;
        };
        lemma_adjust_cur_emitted(masked_edit.edit, current, m1.next_id, 13);
        if adjusted == current {
            assert(adjust_len_upto(masked_edit.edit, 13) == 0);
        }
        assert(m2.ops@.subrange(i0, i0 + mask_ops.len()) =~= mask_ops);
    }
    if adjusted != current {
        let id = push_blend(module, current, adjusted, mask_id);
        proof {
            assert(module.ops@.subrange(i0, i0 + mask_ops.len()) =~= mask_ops);
            lemma_adjust_ok_extend(
                masked_edit.edit,
                current,
                m1.next_id,
                m2.ops@,
                module.ops@,
                i0 + mask_ops.len() as int,
                13,
            );
        }
        id
    } else {
        current
    }
}


/// A compiled segment stays compiled when ops are appended after it.
pub proof fn lemma_masked_edit_ops_ok_extend(
    me: MaskedEdit,
    current: Id,
    next0: Id,
    s1: Seq<Op>,
    s2: Seq<Op>,
    i0: int,
)
    requires
        0 <= i0,
        masked_edit_ops_ok(me, current, next0, s1, i0),
        s1.len() <= s2.len(),
        forall|p: int| 0 <= p < s1.len() ==> s2[p] == s1[p],
    ensures
        masked_edit_ops_ok(me, current, next0, s2, i0),
{
    let terms = me.mask.terms@;
    let mask_len = mask_ops_upto(terms, current, next0, terms.len() as int).len() as int;
    let mask_next = mask_next_upto(terms, next0, terms.len() as int);
    lemma_adjust_len_bounds(me.edit, 13);
    assert(i0 + mask_len <= s1.len());
    assert(s2.subrange(i0, i0 + mask_len) =~= s1.subrange(i0, i0 + mask_len));
    lemma_adjust_ok_extend(me.edit, current, mask_next, s1, s2, i0 + mask_len, 13);
}

/// The working image after the first `k` masked edits.
pub open spec fn edits_cur_upto(edits: Seq<MaskedEdit>, cur0: Id, next0: Id, k: int) -> Id
    decreases k,
{
    if k <= 0 {
        cur0
    } else {
        masked_edit_result(
            edits[k - 1],
            edits_cur_upto(edits, cur0, next0, k - 1),
            edits_next_upto(edits, cur0, next0, k - 1),
        )
    }
}

/// The allocator position after the first `k` masked edits.
pub open spec fn edits_next_upto(edits: Seq<MaskedEdit>, cur0: Id, next0: Id, k: int) -> Id
    decreases k,
{
    if k <= 0 {
        next0
    } else {
        masked_edit_next(
            edits[k - 1],
            edits_cur_upto(edits, cur0, next0, k - 1),
            edits_next_upto(edits, cur0, next0, k - 1),
        )
    }
}

/// The op position after the first `k` masked edits' segments.
pub open spec fn edits_pos_upto(
    edits: Seq<MaskedEdit>,
    cur0: Id,
    next0: Id,
    i0: int,
    k: int,
) -> int
    decreases k,
{
    if k <= 0 {
        i0
    } else {
        edits_pos_upto(edits, cur0, next0, i0, k - 1) + masked_edit_len(
            edits[k - 1],
            edits_cur_upto(edits, cur0, next0, k - 1),
            edits_next_upto(edits, cur0, next0, k - 1),
        )
    }
}

/// The ops of `s` from `i0` on hold the segments of the first `k`
/// masked edits, back to back, each chained through the image and
/// allocator state the previous one left behind.
pub open spec fn edits_ops_ok(
    edits: Seq<MaskedEdit>,
    cur0: Id,
    next0: Id,
    s: Seq<Op>,
    i0: int,
    k: int,
) -> bool
    decreases k,
{
    if k <= 0 {
        true
    } else {
        edits_ops_ok(edits, cur0, next0, s, i0, k - 1) && masked_edit_ops_ok(
            edits[k - 1],
            edits_cur_upto(edits, cur0, next0, k - 1),
            edits_next_upto(edits, cur0, next0, k - 1),
            s,
            edits_pos_upto(edits, cur0, next0, i0, k - 1),
        )
    }
}

/// A compiled chain of segments stays compiled when ops are appended
/// after it.
pub proof fn lemma_edits_ops_ok_extend(
    edits: Seq<MaskedEdit>,
    cur0: Id,
    next0: Id,
    s1: Seq<Op>,
    s2: Seq<Op>,
    i0: int,
    k: int,
)
    requires
        0 <= i0,
        0 <= k,
        edits_ops_ok(edits, cur0, next0, s1, i0, k),
        s1.len() <= s2.len(),
        forall|p: int| 0 <= p < s1.len() ==> s2[p] == s1[p],
    ensures
        edits_ops_ok(edits, cur0, next0, s2, i0, k),
    decreases k,
{
    if k > 0 {
        lemma_edits_ops_ok_extend(edits, cur0, next0, s1, s2, i0, k - 1);
        lemma_edits_pos_nonneg(edits, cur0, next0, i0, k - 1);
        lemma_masked_edit_ops_ok_extend(
            edits[k - 1],
            edits_cur_upto(edits, cur0, next0, k - 1),
            edits_next_upto(edits, cur0, next0, k - 1),
            s1,
            s2,
            edits_pos_upto(edits, cur0, next0, i0, k - 1),
        );
    }
}

/// Positions never move backwards along the chain.
pub proof fn lemma_edits_pos_nonneg(
    edits: Seq<MaskedEdit>,
    cur0: Id,
    next0: Id,
    i0: int,
    k: int,
)
    requires
        0 <= i0,
        0 <= k,
    ensures
        edits_pos_upto(edits, cur0, next0, i0, k) >= i0,
    decreases k,
{
    if k > 0 {
        lemma_edits_pos_nonneg(edits, cur0, next0, i0, k - 1);
        lemma_adjust_len_bounds(edits[k - 1].edit, 13);
    }
}

/// The id a masked edit's compilation leaves as the working image.
pub open spec fn masked_edit_result(me: MaskedEdit, current: Id, next0: Id) -> Id {
    let mask_next = mask_next_upto(me.mask.terms@, next0, me.mask.terms@.len() as int);
    let adjusted = adjust_cur_upto(me.edit, current, mask_next, 13);
    if adjusted == current {
        current
    } else {
        adjust_next_upto(me.edit, mask_next, 13)
    }
}

/// The allocator position after a masked edit's compilation.
pub open spec fn masked_edit_next(me: MaskedEdit, current: Id, next0: Id) -> Id {
    let mask_next = mask_next_upto(me.mask.terms@, next0, me.mask.terms@.len() as int);
    let adjusted = adjust_cur_upto(me.edit, current, mask_next, 13);
    if adjusted == current {
        adjust_next_upto(me.edit, mask_next, 13)
    } else {
        (adjust_next_upto(me.edit, mask_next, 13) + 1) as u32
    }
}

/// How many ops one masked edit's compilation appends: the mask's
/// ops, the emitted adjustment steps, and the blend op when any
/// adjustment was emitted.
pub open spec fn masked_edit_len(me: MaskedEdit, current: Id, next0: Id) -> int {
    let terms = me.mask.terms@;
    let mask_len = mask_ops_upto(terms, current, next0, terms.len() as int).len() as int;
    let mask_next = mask_next_upto(terms, next0, terms.len() as int);
    let adjusted = adjust_cur_upto(me.edit, current, mask_next, 13);
    mask_len + adjust_len_upto(me.edit, 13) + (if adjusted == current {
        0int
    } else {
        1int
    })
}

/// The ops of `s` from `i0` on compile one masked edit: the mask's
/// ops, the adjustment subgraph's ops, and the blend op exactly when
/// an adjustment was emitted. Everything is positional, so the
/// statement survives ops appended later.
pub open spec fn masked_edit_ops_ok(
    me: MaskedEdit,
    current: Id,
    next0: Id,
    s: Seq<Op>,
    i0: int,
) -> bool {
    let terms = me.mask.terms@;
    let mask_len = mask_ops_upto(terms, current, next0, terms.len() as int).len() as int;
    let mask_id = mask_acc_upto(terms, next0, terms.len() as int);
    let mask_next = mask_next_upto(terms, next0, terms.len() as int);
    let adjusted = adjust_cur_upto(me.edit, current, mask_next, 13);
    let adjust_next = adjust_next_upto(me.edit, mask_next, 13);
    &&& i0 + masked_edit_len(me, current, next0) <= s.len()
    &&& s.subrange(i0, i0 + mask_len) == mask_ops_upto(terms, current, next0, terms.len() as int)
    &&& adjust_ops_ok(me.edit, current, mask_next, s, i0 + mask_len, 13)
    &&& (adjusted != current ==> s[i0 + mask_len + adjust_len_upto(me.edit, 13)]
        == Op::ApplyMaskedEdits(
        ApplyMaskedEditsOp { result: adjust_next, base: current, adjusted, mask: mask_id },
    ))
}

/// One masked edit's compilation as the ops it appended: the
/// positional statement, and the appended length exactly.
pub open spec fn compile_masked_edit_ok(
    me: MaskedEdit,
    current: Id,
    next0: Id,
    s: Seq<Op>,
    i0: int,
) -> bool {
    &&& masked_edit_ops_ok(me, current, next0, s, i0)
    &&& s.len() == i0 + masked_edit_len(me, current, next0)
}

} // verus!
