use vstd::prelude::*;
use crate::rectangle::Rectangle;

verus! {

/// Dense integer naming an intermediate value within a `Module`.
pub type Id = u32;

/// Scalar parameters are fixed-point values: the stored integer is the
/// parameter times `crate::math::SCALE`.

#[derive(Clone, Copy, PartialEq, Eq, Structural)]
pub struct GlobalMask {}

#[derive(Clone, Copy, PartialEq, Eq, Structural)]
pub struct RadialGradientMask {
    pub center_x: i64,
    pub center_y: i64,
    pub radius_x: i64,
    pub radius_y: i64,
    pub feather: i64,
    pub rotation: i64,
}

#[derive(Clone, Copy, PartialEq, Eq, Structural)]
pub struct LinearGradientMask {
    pub begin_x: i64,
    pub begin_y: i64,
    pub end_x: i64,
    pub end_y: i64,
}

#[derive(Clone, Copy, PartialEq, Eq, Structural)]
pub enum MaskPrimitive {
    Global(GlobalMask),
    RadialGradient(RadialGradientMask),
    LinearGradient(LinearGradientMask),
}

#[derive(Clone, Copy, PartialEq, Eq, Structural)]
pub struct MaskTerm {
    pub primitive: MaskPrimitive,
    pub inverted: bool,
    pub subtracted: bool,
}

/// A mask is a sum of terms with signs, composed left to right.
#[derive(Clone)]
pub struct Mask {
    pub terms: Vec<MaskTerm>,
}

impl Mask {
    /// The mask that a fresh edit carries: exactly one global term,
    /// neither inverted nor subtracted.
    pub open spec fn is_single_global_spec(&self) -> bool {
        &&& self.terms@.len() == 1
        &&& self.terms@[0].primitive is Global
        &&& !self.terms@[0].inverted
        &&& !self.terms@[0].subtracted
    }

    pub fn is_single_global(&self) -> (r: bool)
        ensures
            r == self.is_single_global_spec(),
    {
        if self.terms.len() != 1 {
            return false;
        }
        let t = &self.terms[0];
        match t.primitive {
            MaskPrimitive::Global(_) => !t.inverted && !t.subtracted,
            _ => false,
        }
    }

    pub fn new_global() -> (r: Mask)
        ensures
            r.is_single_global_spec(),
    {
        let mut terms: Vec<MaskTerm> = Vec::new();
        terms.push(MaskTerm { primitive: MaskPrimitive::Global(GlobalMask {}), inverted: false, subtracted: false });
        Mask { terms }
    }
}

/// One of the eight hue groups of the color mixer.
#[derive(Clone, Copy, PartialEq, Eq, Structural)]
pub struct ColorMixGroup {
    pub hue: i64,
    pub saturation: i64,
    pub lightness: i64,
}

impl ColorMixGroup {
    pub fn new() -> (r: Self)
        ensures
            r.hue == 0 && r.saturation == 0 && r.lightness == 0,
    {
        ColorMixGroup { hue: 0, saturation: 0, lightness: 0 }
    }

    pub open spec fn is_identity(&self) -> bool {
        self.hue == 0 && self.saturation == 0 && self.lightness == 0
    }
}

#[derive(Clone, Copy, PartialEq, Eq, Structural)]
pub enum CurveChannel {
    Luma,
    R,
    G,
    B,
}

#[derive(Clone, Copy, PartialEq, Eq, Structural)]
pub struct InputOp {
    pub result: Id,
}

#[derive(Clone, Copy, PartialEq, Eq, Structural)]
pub struct AdjustExposureOp {
    pub result: Id,
    pub arg: Id,
    pub exposure: i64,
}

#[derive(Clone, Copy, PartialEq, Eq, Structural)]
pub struct AdjustContrastOp {
    pub result: Id,
    pub arg: Id,
    pub basic_stats: Id,
    pub contrast: i64,
}

#[derive(Clone, Copy, PartialEq, Eq, Structural)]
pub struct AdjustHighlightsAndShadowsOp {
    pub result: Id,
    pub arg: Id,
    pub highlights: i64,
    pub shadows: i64,
}

// temperature and tint share one op because the two adjustments share
// most of their work on the GPU
#[derive(Clone, Copy, PartialEq, Eq, Structural)]
pub struct AdjustTemperatureAndTintOp {
    pub result: Id,
    pub arg: Id,
    pub temperature: i64,
    pub tint: i64,
}

#[derive(Clone, Copy, PartialEq, Eq, Structural)]
pub struct AdjustVibranceOp {
    pub result: Id,
    pub arg: Id,
    pub vibrance: i64,
}

#[derive(Clone, Copy, PartialEq, Eq, Structural)]
pub struct AdjustSaturationOp {
    pub result: Id,
    pub arg: Id,
    pub saturation: i64,
}

#[derive(Clone)]
pub struct ApplyCurveOp {
    pub result: Id,
    pub arg: Id,
    pub channel: CurveChannel,
    pub control_points: Vec<(i64, i64)>,
}

#[derive(Clone)]
pub struct ColorMixOp {
    pub result: Id,
    pub arg: Id,
    pub groups: [ColorMixGroup; 8],
}

#[derive(Clone, Copy, PartialEq, Eq, Structural)]
pub struct DehazePrepareOp {
    pub result: Id,
    pub arg: Id,
}

#[derive(Clone, Copy, PartialEq, Eq, Structural)]
pub struct ApplyDehazeOp {
    pub result: Id,
    pub arg: Id,
    pub dehazed: Id,
    pub amount: i64,
}

#[derive(Clone, Copy, PartialEq, Eq, Structural)]
pub struct ApplyVignetteOp {
    pub result: Id,
    pub arg: Id,
    pub vignette: i64,
}

#[derive(Clone, Copy, PartialEq, Eq, Structural)]
pub struct RotateAndCropOp {
    pub result: Id,
    pub arg: Id,
    pub rect: Rectangle,
    pub rotation_degrees: i64,
}

#[derive(Clone, Copy, PartialEq, Eq, Structural)]
pub struct ResizeOp {
    pub result: Id,
    pub arg: Id,
    pub width: u32,
    pub height: u32,
}

#[derive(Clone, Copy, PartialEq, Eq, Structural)]
pub struct FramingOp {
    pub result: Id,
    pub arg: Id,
}

#[derive(Clone, Copy, PartialEq, Eq, Structural)]
pub struct ComputeBasicStatisticsOp {
    pub result: Id,
    pub arg: Id,
}

#[derive(Clone, Copy, PartialEq, Eq, Structural)]
pub struct ComputeHistogramOp {
    pub result: Id,
    pub arg: Id,
}

#[derive(Clone, Copy, PartialEq, Eq, Structural)]
pub struct CollectDataForEditorOp {
    pub result: Id,
    pub histogram_final: Id,
}

#[derive(Clone, Copy, PartialEq, Eq, Structural)]
pub struct CollectStatisticsOp {
    pub result: Id,
    pub histogram: Id,
}

#[derive(Clone, Copy, PartialEq, Eq, Structural)]
pub struct ComputeGlobalMaskOp {
    pub result: Id,
    pub target: Id,
}

#[derive(Clone, Copy, PartialEq, Eq, Structural)]
pub struct ComputeRadialGradientMaskOp {
    pub result: Id,
    pub target: Id,
    pub mask: RadialGradientMask,
}

#[derive(Clone, Copy, PartialEq, Eq, Structural)]
pub struct ComputeLinearGradientMaskOp {
    pub result: Id,
    pub target: Id,
    pub mask: LinearGradientMask,
}

#[derive(Clone, Copy, PartialEq, Eq, Structural)]
pub struct InvertMaskOp {
    pub result: Id,
    pub mask_0: Id,
}

#[derive(Clone, Copy, PartialEq, Eq, Structural)]
pub struct AddMaskOp {
    pub result: Id,
    pub mask_0: Id,
    pub mask_1: Id,
}

#[derive(Clone, Copy, PartialEq, Eq, Structural)]
pub struct SubtractMaskOp {
    pub result: Id,
    pub mask_0: Id,
    pub mask_1: Id,
}

#[derive(Clone, Copy, PartialEq, Eq, Structural)]
pub struct ApplyMaskedEditsOp {
    pub result: Id,
    pub base: Id,
    pub adjusted: Id,
    pub mask: Id,
}

/// Brightness adjustment of the reduced pipeline; not part of the
/// closed op set that the compiler emits.
#[derive(Clone, Copy, PartialEq, Eq, Structural)]
pub struct BrightnessAdjust {
    pub result: Id,
    pub arg: Id,
    pub brightness: i64,
}

#[derive(Clone)]
pub enum Op {
    Input(InputOp),
    AdjustExposure(AdjustExposureOp),
    AdjustContrast(AdjustContrastOp),
    AdjustHighlightsAndShadows(AdjustHighlightsAndShadowsOp),
    AdjustTemperatureAndTint(AdjustTemperatureAndTintOp),
    AdjustVibrance(AdjustVibranceOp),
    AdjustSaturation(AdjustSaturationOp),
    ApplyCurve(ApplyCurveOp),
    ColorMix(ColorMixOp),
    DehazePrepare(DehazePrepareOp),
    ApplyDehaze(ApplyDehazeOp),
    ApplyVignette(ApplyVignetteOp),
    RotateAndCrop(RotateAndCropOp),
    Resize(ResizeOp),
    Framing(FramingOp),
    ComputeBasicStatistics(ComputeBasicStatisticsOp),
    ComputeHistogram(ComputeHistogramOp),
    CollectDataForEditor(CollectDataForEditorOp),
    CollectStatistics(CollectStatisticsOp),
    ComputeGlobalMask(ComputeGlobalMaskOp),
    ComputeRadialGradientMask(ComputeRadialGradientMaskOp),
    ComputeLinearGradientMask(ComputeLinearGradientMaskOp),
    InvertMask(InvertMaskOp),
    AddMask(AddMaskOp),
    SubtractMask(SubtractMaskOp),
    ApplyMaskedEdits(ApplyMaskedEditsOp),
}

impl Op {
    /// The id this op defines.
    pub open spec fn result_id(&self) -> Id {
        match *self {
            Op::Input(o) => o.result,
            Op::AdjustExposure(o) => o.result,
            Op::AdjustContrast(o) => o.result,
            Op::AdjustHighlightsAndShadows(o) => o.result,
            Op::AdjustTemperatureAndTint(o) => o.result,
            Op::AdjustVibrance(o) => o.result,
            Op::AdjustSaturation(o) => o.result,
            Op::ApplyCurve(o) => o.result,
            Op::ColorMix(o) => o.result,
            Op::DehazePrepare(o) => o.result,
            Op::ApplyDehaze(o) => o.result,
            Op::ApplyVignette(o) => o.result,
            Op::RotateAndCrop(o) => o.result,
            Op::Resize(o) => o.result,
            Op::Framing(o) => o.result,
            Op::ComputeBasicStatistics(o) => o.result,
            Op::ComputeHistogram(o) => o.result,
            Op::CollectDataForEditor(o) => o.result,
            Op::CollectStatistics(o) => o.result,
            Op::ComputeGlobalMask(o) => o.result,
            Op::ComputeRadialGradientMask(o) => o.result,
            Op::ComputeLinearGradientMask(o) => o.result,
            Op::InvertMask(o) => o.result,
            Op::AddMask(o) => o.result,
            Op::SubtractMask(o) => o.result,
            Op::ApplyMaskedEdits(o) => o.result,
        }
    }

    /// The ids this op reads; each must be defined by an earlier op.
    pub open spec fn operand_ids(&self) -> Seq<Id> {
        match *self {
            Op::Input(_) => seq![],
            Op::AdjustExposure(o) => seq![o.arg],
            Op::AdjustContrast(o) => seq![o.arg, o.basic_stats],
            Op::AdjustHighlightsAndShadows(o) => seq![o.arg],
            Op::AdjustTemperatureAndTint(o) => seq![o.arg],
            Op::AdjustVibrance(o) => seq![o.arg],
            Op::AdjustSaturation(o) => seq![o.arg],
            Op::ApplyCurve(o) => seq![o.arg],
            Op::ColorMix(o) => seq![o.arg],
            Op::DehazePrepare(o) => seq![o.arg],
            Op::ApplyDehaze(o) => seq![o.arg, o.dehazed],
            Op::ApplyVignette(o) => seq![o.arg],
            Op::RotateAndCrop(o) => seq![o.arg],
            Op::Resize(o) => seq![o.arg],
            Op::Framing(o) => seq![o.arg],
            Op::ComputeBasicStatistics(o) => seq![o.arg],
            Op::ComputeHistogram(o) => seq![o.arg],
            Op::CollectDataForEditor(o) => seq![o.histogram_final],
            Op::CollectStatistics(o) => seq![o.histogram],
            Op::ComputeGlobalMask(o) => seq![o.target],
            Op::ComputeRadialGradientMask(o) => seq![o.target],
            Op::ComputeLinearGradientMask(o) => seq![o.target],
            Op::InvertMask(o) => seq![o.mask_0],
            Op::AddMask(o) => seq![o.mask_0, o.mask_1],
            Op::SubtractMask(o) => seq![o.mask_0, o.mask_1],
            Op::ApplyMaskedEdits(o) => seq![o.base, o.adjusted, o.mask],
        }
    }
}

/// The kind of value an op produces.
#[derive(Clone, Copy, PartialEq, Eq, Structural)]
pub enum ValueKind {
    ImageKind,
    BufferKind,
}

impl Op {
    /// The kind of the value this op defines: statistics and histogram
    /// ops fill buffers, every other op renders an image.
    pub open spec fn result_kind(&self) -> ValueKind {
        match *self {
            Op::ComputeBasicStatistics(_) => ValueKind::BufferKind,
            Op::ComputeHistogram(_) => ValueKind::BufferKind,
            Op::CollectDataForEditor(_) => ValueKind::BufferKind,
            Op::CollectStatistics(_) => ValueKind::BufferKind,
            _ => ValueKind::ImageKind,
        }
    }

    /// The kinds this op expects of its operands, matching
    /// `operand_ids` position by position.
    pub open spec fn operand_kinds(&self) -> Seq<ValueKind> {
        match *self {
            Op::AdjustContrast(_) => seq![ValueKind::ImageKind, ValueKind::BufferKind],
            Op::CollectDataForEditor(_) => seq![ValueKind::BufferKind],
            Op::CollectStatistics(_) => seq![ValueKind::BufferKind],
            _ => Seq::new(self.operand_ids().len(), |i: int| ValueKind::ImageKind),
        }
    }
}

/// An ordered sequence of ops together with an id allocator, a
/// distinguished input id and a distinguished output id.
pub struct Module {
    pub ops: Vec<Op>,
    pub next_id: Id,
    pub input_id: Id,
    pub output_id: Id,
}

impl Module {
    /// `id` is the result of some op of the module.
    pub open spec fn is_defined(&self, id: Id) -> bool {
        exists|j: int| 0 <= j < self.ops@.len() && (#[trigger] self.ops@[j].result_id()) == id
    }

    /// `id` is the result of an op strictly before position `k`.
    pub open spec fn is_defined_before(&self, k: int, id: Id) -> bool {
        exists|j: int| 0 <= j < k && (#[trigger] self.ops@[j].result_id()) == id
    }

    /// Some op of the module defines `id` with kind `k`.
    pub open spec fn defines_kind(&self, id: Id, k: ValueKind) -> bool {
        exists|j: int|
            0 <= j < self.ops@.len() && (#[trigger] self.ops@[j].result_id()) == id
                && self.ops@[j].result_kind() == k
    }

    /// Every operand of `op` is defined in this module with the kind
    /// `op` expects.
    pub open spec fn op_well_typed(&self, op: Op) -> bool {
        forall|m: int|
            0 <= m < op.operand_ids().len() ==> self.defines_kind(
                #[trigger] op.operand_ids()[m],
                op.operand_kinds()[m],
            )
    }

    /// Every op's operands are defined with the kinds it expects, the
    /// input id is defined as an image, and any input op defines the
    /// module input. Execution of such a module cannot fail.
    pub open spec fn well_typed(&self) -> bool {
        &&& forall|k: int|
            0 <= k < self.ops@.len() ==> self.op_well_typed(#[trigger] self.ops@[k])
        &&& self.defines_kind(self.input_id, ValueKind::ImageKind)
        &&& forall|k: int|
            0 <= k < self.ops@.len() ==> ((#[trigger] self.ops@[k]) is Input ==> self.ops@[k].result_id()
                == self.input_id)
    }

    /// No id is defined twice; every operand refers to an earlier
    /// result; all ids are below the allocator's next id.
    pub open spec fn wf(&self) -> bool {
        &&& forall|j: int, k: int|
            0 <= j < k < self.ops@.len() ==> (#[trigger] self.ops@[j].result_id()) != (
            #[trigger] self.ops@[k].result_id())
        &&& forall|k: int|
            0 <= k < self.ops@.len() ==> (#[trigger] self.ops@[k].result_id()) < self.next_id
        &&& forall|k: int, m: int|
            0 <= k < self.ops@.len() && 0 <= m < self.ops@[k].operand_ids().len()
                ==> self.is_defined_before(k, #[trigger] self.ops@[k].operand_ids()[m])
        &&& self.input_id < self.next_id
    }

    /// A module that passes its input through unchanged: one input op,
    /// whose result is both the input id and the output id.
    pub fn new_trivial() -> (m: Module)
        ensures
            m.wf(),
            m.ops@.len() == 1,
            m.ops@[0] == Op::Input(InputOp { result: 0u32 }),
            m.input_id == 0,
            m.output_id == 0,
            m.next_id == 1,
            m.is_defined(0),
            m.well_typed(),
            m.defines_kind(0, ValueKind::ImageKind),
    {
        let mut ops: Vec<Op> = Vec::new();
        ops.push(Op::Input(InputOp { result: 0 }));
        let m = Module { ops, next_id: 1, input_id: 0, output_id: 0 };
        proof {
            assert(m.ops@[0].result_id() == 0);
        }
        m
    }

    /// Hands out a fresh id; ids grow monotonically.
    pub fn alloc_id(&mut self) -> (id: Id)
        requires
            old(self).next_id < u32::MAX,
        ensures
            id == old(self).next_id,
            final(self).next_id == old(self).next_id + 1,
            final(self).ops == old(self).ops,
            final(self).input_id == old(self).input_id,
            final(self).output_id == old(self).output_id,
            old(self).wf() ==> final(self).wf(),
            old(self).wf() ==> !old(self).is_defined(id),
            forall|x: Id| old(self).is_defined(x) == final(self).is_defined(x),
            forall|x: Id, k: ValueKind|
                old(self).defines_kind(x, k) == final(self).defines_kind(x, k),
            old(self).well_typed() ==> final(self).well_typed(),
    {
        let ghost old_m = *self;
        let id = self.next_id;
        self.next_id = self.next_id + 1;
        proof {
            if old_m.wf() && old_m.is_defined(id) {
                let j = choose|j: int|
                    0 <= j < old_m.ops@.len() && (#[trigger] old_m.ops@[j].result_id()) == id;
                assert(old_m.ops@[j].result_id() < old_m.next_id);
            }
            assert forall|x: Id| old_m.is_defined(x) == self.is_defined(x) by {
                if old_m.is_defined(x) {
                    let j = choose|j: int|
                        0 <= j < old_m.ops@.len() && (#[trigger] old_m.ops@[j].result_id()) == x;
                    assert(self.ops@[j].result_id() == x);
                }
                if self.is_defined(x) {
                    let j = choose|j: int|
                        0 <= j < self.ops@.len() && (#[trigger] self.ops@[j].result_id()) == x;
                    assert(old_m.ops@[j].result_id() == x);
                }
            };
            assert forall|x: Id, k: ValueKind|
                old_m.defines_kind(x, k) == self.defines_kind(x, k) by {
                if old_m.defines_kind(x, k) {
                    let j = choose|j: int|
                        0 <= j < old_m.ops@.len() && (#[trigger] old_m.ops@[j].result_id()) == x
                            && old_m.ops@[j].result_kind() == k;
                    assert(self.ops@[j].result_id() == x && self.ops@[j].result_kind() == k);
                }
                if self.defines_kind(x, k) {
                    let j = choose|j: int|
                        0 <= j < self.ops@.len() && (#[trigger] self.ops@[j].result_id()) == x
                            && self.ops@[j].result_kind() == k;
                    assert(old_m.ops@[j].result_id() == x && old_m.ops@[j].result_kind() == k);
                }
            };
            if old_m.well_typed() {
                assert forall|k: int| 0 <= k < self.ops@.len() implies self.op_well_typed(
                    #[trigger] self.ops@[k],
                ) by {
                    assert(old_m.op_well_typed(old_m.ops@[k]));
                };
            }
        }
        id
    }

    /// Appends an op. References are not validated beyond the
    /// well-formedness preconditions; kinds are checked on execution.
    pub fn push_op(&mut self, op: Op)
        requires
            old(self).wf(),
            op.result_id() < old(self).next_id,
            !old(self).is_defined(op.result_id()),
            forall|m: int|
                0 <= m < op.operand_ids().len() ==> old(self).is_defined(
                    #[trigger] op.operand_ids()[m],
                ),
        ensures
            final(self).ops@ == old(self).ops@.push(op),
            final(self).next_id == old(self).next_id,
            final(self).input_id == old(self).input_id,
            final(self).output_id == old(self).output_id,
            final(self).wf(),
            final(self).is_defined(op.result_id()),
            forall|x: Id| old(self).is_defined(x) ==> final(self).is_defined(x),
            final(self).defines_kind(op.result_id(), op.result_kind()),
            forall|x: Id, k: ValueKind|
                old(self).defines_kind(x, k) ==> final(self).defines_kind(x, k),
            forall|op2: Op| old(self).op_well_typed(op2) ==> final(self).op_well_typed(op2),
            old(self).well_typed() && old(self).op_well_typed(op) && (op is Input
                ==> op.result_id() == old(self).input_id) ==> final(self).well_typed(),
    {
        let ghost old_m = *self;
        self.ops.push(op);
        proof {
            let len = old_m.ops@.len() as int;
            assert(self.ops@[len].result_id() == op.result_id());
            assert forall|x: Id| old_m.is_defined(x) implies self.is_defined(x) by {
                let j = choose|j: int|
                    0 <= j < old_m.ops@.len() && (#[trigger] old_m.ops@[j].result_id()) == x;
                assert(self.ops@[j].result_id() == x);
            };
            assert forall|k: int, m: int|
                0 <= k < self.ops@.len() && 0 <= m
                    < self.ops@[k].operand_ids().len() implies self.is_defined_before(
                k,
                #[trigger] self.ops@[k].operand_ids()[m],
            ) by {
                if k < len {
                    assert(old_m.is_defined_before(k, old_m.ops@[k].operand_ids()[m]));
                    let j = choose|j: int|
                        0 <= j < k && (#[trigger] old_m.ops@[j].result_id())
                            == old_m.ops@[k].operand_ids()[m];
                    assert(self.ops@[j].result_id() == self.ops@[k].operand_ids()[m]);
                } else {
                    assert(old_m.is_defined(op.operand_ids()[m]));
                    let j = choose|j: int|
                        0 <= j < old_m.ops@.len() && (#[trigger] old_m.ops@[j].result_id())
                            == op.operand_ids()[m];
                    assert(self.ops@[j].result_id() == self.ops@[k].operand_ids()[m]);
                }
            };
            assert forall|j: int, k: int| 0 <= j < k < self.ops@.len() implies (
            #[trigger] self.ops@[j].result_id()) != (#[trigger] self.ops@[k].result_id()) by {
                if k == len {
                    assert(self.ops@[j].result_id() == old_m.ops@[j].result_id());
                    if self.ops@[j].result_id() == op.result_id() {
                        assert(old_m.is_defined(op.result_id()));
                    }
                }
            };
            assert(self.ops@[len].result_kind() == op.result_kind());
            assert forall|x: Id, k: ValueKind|
                old_m.defines_kind(x, k) implies self.defines_kind(x, k) by {
                let j = choose|j: int|
                    0 <= j < old_m.ops@.len() && (#[trigger] old_m.ops@[j].result_id()) == x
                        && old_m.ops@[j].result_kind() == k;
                assert(self.ops@[j].result_id() == x && self.ops@[j].result_kind() == k);
            };
            assert forall|op2: Op|
                old_m.op_well_typed(op2) implies self.op_well_typed(op2) by {
                assert forall|m: int|
                    0 <= m < op2.operand_ids().len() implies self.defines_kind(
                    #[trigger] op2.operand_ids()[m],
                    op2.operand_kinds()[m],
                ) by {
                    assert(old_m.defines_kind(op2.operand_ids()[m], op2.operand_kinds()[m]));
                };
            };
            if old_m.well_typed() && old_m.op_well_typed(op) && (op is Input ==> op.result_id()
                == old_m.input_id) {
                assert forall|k: int| 0 <= k < self.ops@.len() implies self.op_well_typed(
                    #[trigger] self.ops@[k],
                ) by {
                    if k < len {
                        assert(old_m.op_well_typed(old_m.ops@[k]));
                        assert(self.op_well_typed(old_m.ops@[k]));
                    } else {
                        assert(self.ops@[k] == op);
                        assert(self.op_well_typed(op));
                    }
                };
                assert(old_m.defines_kind(old_m.input_id, ValueKind::ImageKind));
                assert(self.defines_kind(self.input_id, ValueKind::ImageKind));
            }
        }
    }

    pub fn set_output_id(&mut self, id: Id)
        ensures
            final(self).output_id == id,
            final(self).ops == old(self).ops,
            final(self).next_id == old(self).next_id,
            final(self).input_id == old(self).input_id,
            old(self).wf() ==> final(self).wf(),
            forall|x: Id| old(self).is_defined(x) == final(self).is_defined(x),
            forall|x: Id, k: ValueKind|
                old(self).defines_kind(x, k) == final(self).defines_kind(x, k),
            old(self).well_typed() ==> final(self).well_typed(),
    {
        self.output_id = id;
    }

    pub fn get_output_id(&self) -> (id: Id)
        ensures
            id == self.output_id,
    {
        self.output_id
    }

    /// Appends the histogram chain reading the current output: a
    /// histogram op and the op copying it out for the editor. These run
    /// unconditionally so the editor always gets a histogram.
    pub fn add_statistics_ops(&mut self)
        requires
            old(self).wf(),
            old(self).is_defined(old(self).output_id),
            old(self).defines_kind(old(self).output_id, ValueKind::ImageKind),
            old(self).next_id < u32::MAX - 1,
        ensures
            final(self).ops@ == old(self).ops@.push(
                Op::ComputeHistogram(
                    ComputeHistogramOp { result: old(self).next_id, arg: old(self).output_id },
                ),
            ).push(
                Op::CollectDataForEditor(
                    CollectDataForEditorOp {
                        result: (old(self).next_id + 1) as u32,
                        histogram_final: old(self).next_id,
                    },
                ),
            ),
            final(self).next_id == old(self).next_id + 2,
            final(self).input_id == old(self).input_id,
            final(self).output_id == old(self).output_id,
            final(self).wf(),
            forall|x: Id| old(self).is_defined(x) ==> final(self).is_defined(x),
            old(self).well_typed() ==> final(self).well_typed(),
            forall|x: Id, k: ValueKind|
                old(self).defines_kind(x, k) ==> final(self).defines_kind(x, k),
    {
        let histogram_id = self.alloc_id();
        self.push_op(
            Op::ComputeHistogram(ComputeHistogramOp { result: histogram_id, arg: self.output_id }),
        );
        let collect_id = self.alloc_id();
        self.push_op(
            Op::CollectDataForEditor(
                CollectDataForEditorOp { result: collect_id, histogram_final: histogram_id },
            ),
        );
    }
}

} // verus!
