use vstd::prelude::*;
use crate::error::EngineError;
use crate::ir::ColorMixGroup;
use crate::ir::Id;
use crate::ir::Module;
use crate::ir::Op;
use crate::ir::ValueKind;
use crate::math::SCALE;
use crate::op_impl_collection::OpImplCollection;
use crate::runtime::ColorSpace;
use crate::runtime::Buffer;
use crate::runtime::CommandEncoder;
use crate::runtime::Image;
use crate::runtime::ImageFormat;
use crate::runtime::ImageProperties;
use crate::runtime::Runtime;
use crate::toolbox::Toolbox;
use crate::value_store::Value;
use crate::value_store::ValueStore;

verus! {

/// The image an op will read at `id`; meaningful only when the store
/// holds an image there.
pub open spec fn image_of(vs: ValueStore, id: Id) -> Image {
    match vs.value_at(id) {
        Some(Value::Image(img)) => img,
        _ => Image {
            properties: ImageProperties {
                dimensions: (0, 0),
                format: ImageFormat::Rgba8Unorm,
                color_space: ColorSpace::LinearRGB,
            },
            mip_level_count: 0,
            uuid: 0,
        },
    }
}

pub open spec fn image_available(vs: ValueStore, id: Id) -> bool {
    vs.value_at(id) matches Some(Value::Image(_))
}

pub open spec fn buffer_available(vs: ValueStore, id: Id) -> bool {
    vs.value_at(id) matches Some(Value::Buffer(_))
}

pub open spec fn kind_available(vs: ValueStore, id: Id, kind: ValueKind) -> bool {
    match kind {
        ValueKind::ImageKind => image_available(vs, id),
        ValueKind::BufferKind => buffer_available(vs, id),
    }
}

/// Every operand of `op` is in the store with the kind `op` expects.
pub open spec fn operands_available(vs: ValueStore, op: Op) -> bool {
    forall|m: int|
        0 <= m < op.operand_ids().len() ==> kind_available(
            vs,
            #[trigger] op.operand_ids()[m],
            op.operand_kinds()[m],
        )
}

/// The result of `op` is in the store with the kind `op` produces.
pub open spec fn value_matches_op(vs: ValueStore, op: Op) -> bool {
    kind_available(vs, op.result_id(), op.result_kind())
}

/// The store holds a value of the right kind for the result of each of
/// the first `k` ops.
pub open spec fn store_covers(vs: ValueStore, m: Module, k: int) -> bool {
    forall|j: int| 0 <= j < k ==> value_matches_op(vs, #[trigger] m.ops@[j])
}

/// The longer edge of an image, the base length the rotated crop's
/// output is sized from.
pub open spec fn longer_edge(img: Image) -> u32 {
    if img.properties.dimensions.0 >= img.properties.dimensions.1 {
        img.properties.dimensions.0
    } else {
        img.properties.dimensions.1
    }
}

/// The size of one axis of the rotated crop's output: the input's
/// longer edge times the normalized crop extent along that axis, kept
/// within the texture size range.
pub open spec fn scaled_dim_spec(d: u32, s: i64) -> u32 {
    if s <= 0 {
        1u32
    } else {
        let v = d * s / (SCALE as int);
        if v < 1 {
            1u32
        } else if v > u32::MAX {
            u32::MAX
        } else {
            v as u32
        }
    }
}

pub fn scaled_dim(d: u32, s: i64) -> (r: u32)
    ensures
        r == scaled_dim_spec(d, s),
{
    if s <= 0 {
        return 1;
    }
    proof {
        vstd::arithmetic::mul::lemma_mul_upper_bound(d as int, u32::MAX as int, s as int, i64::MAX as int);
    }
    let v: u128 = (d as u128) * (s as u128) / (SCALE as u128);
    if v < 1 {
        1
    } else if v > u32::MAX as u128 {
        u32::MAX
    } else {
        v as u32
    }
}

/// The properties of the image an op renders, given the store its
/// operands come from.
pub open spec fn out_props_of(vs: ValueStore, op: Op) -> ImageProperties {
    match op {
        Op::Input(o) => image_of(vs, o.result).properties,
        Op::AdjustExposure(o) => image_of(vs, o.arg).properties,
        Op::AdjustContrast(o) => image_of(vs, o.arg).properties,
        Op::AdjustHighlightsAndShadows(o) => image_of(vs, o.arg).properties,
        Op::AdjustTemperatureAndTint(o) => image_of(vs, o.arg).properties,
        Op::AdjustVibrance(o) => image_of(vs, o.arg).properties,
        Op::AdjustSaturation(o) => image_of(vs, o.arg).properties,
        Op::ApplyCurve(o) => image_of(vs, o.arg).properties,
        Op::ColorMix(o) => image_of(vs, o.arg).properties,
        Op::DehazePrepare(o) => image_of(vs, o.arg).properties,
        Op::ApplyDehaze(o) => image_of(vs, o.arg).properties,
        Op::ApplyVignette(o) => image_of(vs, o.arg).properties,
        Op::RotateAndCrop(o) => ImageProperties {
            dimensions: (
                scaled_dim_spec(longer_edge(image_of(vs, o.arg)), o.rect.size.x),
                scaled_dim_spec(longer_edge(image_of(vs, o.arg)), o.rect.size.y),
            ),
            ..image_of(vs, o.arg).properties
        },
        Op::Resize(o) => ImageProperties {
            dimensions: (o.width, o.height),
            ..image_of(vs, o.arg).properties
        },
        Op::Framing(o) => image_of(vs, o.arg).properties,
        Op::ComputeGlobalMask(o) => ImageProperties {
            format: ImageFormat::Rgba8Unorm,
            ..image_of(vs, o.target).properties
        },
        Op::ComputeRadialGradientMask(o) => ImageProperties {
            format: ImageFormat::Rgba8Unorm,
            ..image_of(vs, o.target).properties
        },
        Op::ComputeLinearGradientMask(o) => ImageProperties {
            format: ImageFormat::Rgba8Unorm,
            ..image_of(vs, o.target).properties
        },
        Op::InvertMask(o) => image_of(vs, o.mask_0).properties,
        Op::AddMask(o) => image_of(vs, o.mask_0).properties,
        Op::SubtractMask(o) => image_of(vs, o.mask_0).properties,
        Op::ApplyMaskedEdits(o) => image_of(vs, o.base).properties,
        _ => image_of(vs, 0).properties,
    }
}

fn fetch_image(value_store: &ValueStore, id: Id) -> (r: Result<Image, EngineError>)
    ensures
        r is Ok <==> image_available(*value_store, id),
        r matches Ok(img) ==> value_store.value_at(id) == Some(Value::Image(img)) && img
            == image_of(*value_store, id),
{
    match value_store.get(id) {
        Some(v) => match v.as_image() {
            Some(img) => Ok(img),
            None => Err(EngineError::InvalidModule),
        },
        None => Err(EngineError::InvalidModule),
    }
}

fn fetch_buffer(value_store: &ValueStore, id: Id) -> (r: Result<crate::runtime::Buffer, EngineError>)
    ensures
        r is Ok <==> buffer_available(*value_store, id),
        r matches Ok(b) ==> value_store.value_at(id) == Some(Value::Buffer(b)),
{
    match value_store.get(id) {
        Some(v) => match v.as_buffer() {
            Some(b) => Ok(b),
            None => Err(EngineError::InvalidModule),
        },
        None => Err(EngineError::InvalidModule),
    }
}

proof fn lemma_operand_available(m: &Module, vs: &ValueStore, k: int, id: Id, kind: ValueKind)
    requires
        m.wf(),
        0 <= k <= m.ops@.len(),
        m.defines_kind(id, kind),
        m.is_defined_before(k, id),
        store_covers(*vs, *m, k),
    ensures
        kind_available(*vs, id, kind),
{
    let j1 = choose|j: int|
        0 <= j < m.ops@.len() && (#[trigger] m.ops@[j].result_id()) == id
            && m.ops@[j].result_kind() == kind;
    let j2 = choose|j: int| 0 <= j < k && (#[trigger] m.ops@[j].result_id()) == id;
    if j1 != j2 {
        if j1 < j2 {
            assert(m.ops@[j1].result_id() != m.ops@[j2].result_id());
        } else {
            assert(m.ops@[j2].result_id() != m.ops@[j1].result_id());
        }
    }
    assert(value_matches_op(*vs, m.ops@[j2]));
}

/// In a well-formed module, once the first `k` results are in the
/// store, the operands of op `k` are all available.
pub proof fn lemma_op_operands_available(m: &Module, vs: &ValueStore, k: int)
    requires
        m.wf(),
        0 <= k < m.ops@.len(),
        m.op_well_typed(m.ops@[k]),
        store_covers(*vs, *m, k),
    ensures
        operands_available(*vs, m.ops@[k]),
{
    let op = m.ops@[k];
    assert forall|mm: int| 0 <= mm < op.operand_ids().len() implies kind_available(
        *vs,
        #[trigger] op.operand_ids()[mm],
        op.operand_kinds()[mm],
    ) by {
        assert(m.defines_kind(op.operand_ids()[mm], op.operand_kinds()[mm]));
        assert(m.is_defined_before(k, op.operand_ids()[mm]));
        lemma_operand_available(m, vs, k, op.operand_ids()[mm], op.operand_kinds()[mm]);
    };
}

proof fn lemma_covers_extend(m: &Module, old_vs: &ValueStore, new_vs: &ValueStore, k: int)
    requires
        m.wf(),
        0 <= k < m.ops@.len(),
        store_covers(*old_vs, *m, k),
        forall|x: Id|
            x != m.ops@[k].result_id() ==> new_vs.value_at(x) == old_vs.value_at(x),
        value_matches_op(*new_vs, m.ops@[k]),
    ensures
        store_covers(*new_vs, *m, k + 1),
{
    assert forall|j: int| 0 <= j < k + 1 implies value_matches_op(*new_vs, #[trigger] m.ops@[j]) by {
        if j < k {
            assert(value_matches_op(*old_vs, m.ops@[j]));
            assert(m.ops@[j].result_id() != m.ops@[k].result_id());
        }
    };
}

/// How many of these ops encode commands: every op except the input
/// marker produces at least one command.
pub open spec fn num_command_ops(s: Seq<Op>) -> int
    decreases s.len(),
{
    if s.len() == 0 {
        0
    } else {
        num_command_ops(s.drop_last()) + if s.last() is Input {
            0int
        } else {
            1int
        }
    }
}

proof fn lemma_num_command_ops_take(s: Seq<Op>, i: int)
    requires
        0 <= i < s.len(),
    ensures
        num_command_ops(s.take(i + 1)) == num_command_ops(s.take(i)) + if s[i] is Input {
            0int
        } else {
            1int
        },
{
    assert(s.take(i + 1).drop_last() =~= s.take(i));
    assert(s.take(i + 1).last() == s[i]);
}

/// No op other than the input marker writes at the module input's id,
/// so the input image survives the whole execution.
pub open spec fn input_never_redefined(m: Module) -> bool {
    forall|j: int|
        0 <= j < m.ops@.len() ==> ((#[trigger] m.ops@[j]).result_id() == m.input_id
            ==> m.ops@[j] is Input)
}

/// What one execution hands back: the output image descriptor and the
/// commands of the single submission.
pub struct ExecutionResult {
    pub final_image: Image,
    pub encoder: CommandEncoder,
}

/// An op can be encoded when its operands are in the store with the
/// right kinds; an input op additionally expects the engine to have
/// placed the input image under its result id.
pub open spec fn op_executable(vs: ValueStore, op: Op) -> bool {
    &&& operands_available(vs, op)
    &&& (op matches Op::Input(o) ==> image_available(vs, o.result))
}

/// Orchestrates module execution: owns the runtime handle, the
/// reusable value store and one implementation per op kind; per
/// execution it resets the ring buffers, walks the ops in order
/// encoding onto one encoder, and returns the value at the module's
/// output.
pub struct Engine {
    pub runtime: Runtime,
    pub toolbox: Toolbox,
    pub op_impls: OpImplCollection,
    pub value_store: ValueStore,
}

impl Engine {
    pub open spec fn wf(&self) -> bool {
        self.op_impls.wf()
    }

    pub fn new(runtime: Runtime) -> (r: Self)
        requires
            runtime.next_uuid + 64 <= u64::MAX,
        ensures
            r.wf(),
    {
        let mut rt = runtime;
        let op_impls = OpImplCollection::new(&mut rt);
        Engine { runtime: rt, toolbox: Toolbox::new(), op_impls, value_store: ValueStore::new() }
    }

    /// Reads a value out of the engine's store.
    pub fn get_value(&self, id: Id) -> (r: Option<Value>)
        ensures
            r == self.value_store.value_at(id),
    {
        self.value_store.get(id)
    }

    /// How many bind groups all the op implementations have created so
    /// far.
    pub fn num_bind_groups(&self) -> (r: u128)
        ensures
            r == self.op_impls.spec_num_bind_groups(),
    {
        self.op_impls.num_bind_groups()
    }

    /// Encodes the commands of one op, placing its result in the
    /// store. Fails exactly when an operand is missing or has the
    /// wrong kind; nothing is changed then.
    fn encode_op(&mut self, encoder: &mut CommandEncoder, op: &Op) -> (r: Result<
        (),
        EngineError,
    >)
        requires
            old(self).wf(),
            old(self).runtime.next_uuid + 4 <= u64::MAX,
        ensures
            final(self).wf(),
            final(self).runtime.next_uuid <= old(self).runtime.next_uuid + 4,
            final(self).runtime.next_uuid >= old(self).runtime.next_uuid,
            r is Ok <==> op_executable(old(self).value_store, *op),
            r is Err ==> final(self).value_store == old(self).value_store && *final(encoder)
                == *old(encoder),
            r is Ok ==> value_matches_op(final(self).value_store, *op),
            op is Input ==> final(self).value_store == old(self).value_store,
            r is Ok ==> final(encoder).commands@.len() >= old(encoder).commands@.len() + (
            if op is Input {
                0int
            } else {
                1int
            }),
            forall|p: int|
                0 <= p < old(encoder).commands@.len() ==> final(encoder).commands@[p] == old(encoder).commands@[p],
            r is Ok ==> forall|x: Id|
                x != op.result_id() ==> final(self).value_store.value_at(x) == old(self).value_store.value_at(x),
            r is Ok && op.result_kind() is ImageKind && !(op is Input) ==> (final(self).value_store.value_at(op.result_id()) matches Some(Value::Image(out))
                && out.properties == out_props_of(old(self).value_store, *op)),
    {
        match op {
            Op::Input(_) => self.encode_adjustment_op(encoder, op),
            Op::AdjustExposure(_) => self.encode_adjustment_op(encoder, op),
            Op::AdjustContrast(_) => self.encode_adjustment_op(encoder, op),
            Op::AdjustHighlightsAndShadows(_) => self.encode_adjustment_op(encoder, op),
            Op::AdjustTemperatureAndTint(_) => self.encode_adjustment_op(encoder, op),
            Op::AdjustVibrance(_) => self.encode_adjustment_op(encoder, op),
            Op::AdjustSaturation(_) => self.encode_adjustment_op(encoder, op),
            Op::ApplyCurve(_) => self.encode_tone_op(encoder, op),
            Op::ColorMix(_) => self.encode_tone_op(encoder, op),
            Op::DehazePrepare(_) => self.encode_tone_op(encoder, op),
            Op::ApplyDehaze(_) => self.encode_tone_op(encoder, op),
            Op::ApplyVignette(_) => self.encode_tone_op(encoder, op),
            Op::RotateAndCrop(_) => self.encode_geometry_and_mask_op(encoder, op),
            Op::Resize(_) => self.encode_geometry_and_mask_op(encoder, op),
            Op::Framing(_) => self.encode_geometry_and_mask_op(encoder, op),
            Op::ComputeGlobalMask(_) => self.encode_geometry_and_mask_op(encoder, op),
            Op::ComputeRadialGradientMask(_) => self.encode_geometry_and_mask_op(encoder, op),
            Op::ComputeLinearGradientMask(_) => self.encode_geometry_and_mask_op(encoder, op),
            Op::InvertMask(_) => self.encode_geometry_and_mask_op(encoder, op),
            Op::AddMask(_) => self.encode_geometry_and_mask_op(encoder, op),
            Op::SubtractMask(_) => self.encode_geometry_and_mask_op(encoder, op),
            Op::ApplyMaskedEdits(_) => self.encode_geometry_and_mask_op(encoder, op),
            Op::ComputeBasicStatistics(_) => self.encode_statistics_op(encoder, op),
            Op::ComputeHistogram(_) => self.encode_statistics_op(encoder, op),
            Op::CollectDataForEditor(_) => self.encode_statistics_op(encoder, op),
            Op::CollectStatistics(_) => self.encode_statistics_op(encoder, op),
        }
    }

    #[verifier::rlimit(100)]
    #[verifier::spinoff_prover]
    fn encode_adjustment_op(&mut self, encoder: &mut CommandEncoder, op: &Op) -> (r: Result<
        (),
        EngineError,
    >)
        requires
            old(self).wf(),
            old(self).runtime.next_uuid + 4 <= u64::MAX,
            op is Input || op is AdjustExposure || op is AdjustContrast || op is AdjustHighlightsAndShadows || op is AdjustTemperatureAndTint || op is AdjustVibrance || op is AdjustSaturation,
        ensures
            final(self).wf(),
            final(self).runtime.next_uuid <= old(self).runtime.next_uuid + 4,
            final(self).runtime.next_uuid >= old(self).runtime.next_uuid,
            r is Ok <==> op_executable(old(self).value_store, *op),
            r is Err ==> final(self).value_store == old(self).value_store && *final(encoder)
                == *old(encoder),
            r is Ok ==> value_matches_op(final(self).value_store, *op),
            op is Input ==> final(self).value_store == old(self).value_store,
            r is Ok ==> final(encoder).commands@.len() >= old(encoder).commands@.len() + (
            if op is Input {
                0int
            } else {
                1int
            }),
            forall|p: int|
                0 <= p < old(encoder).commands@.len() ==> final(encoder).commands@[p] == old(encoder).commands@[p],
            r is Ok ==> forall|x: Id|
                x != op.result_id() ==> final(self).value_store.value_at(x) == old(self).value_store.value_at(x),
            r is Ok && op.result_kind() is ImageKind && !(op is Input) ==> (final(self).value_store.value_at(op.result_id()) matches Some(Value::Image(out))
                && out.properties == out_props_of(old(self).value_store, *op)),
    {
        match op {
            Op::Input(o) => {
                match fetch_image(&self.value_store, o.result) {
                    Ok(_) => Ok(()),
                    Err(e) => Err(e),
                }
            },
            Op::AdjustExposure(o) => {
                let input = match fetch_image(&self.value_store, o.arg) {
                    Ok(img) => img,
                    Err(e) => {
                        proof {
                            assert(!kind_available(
                                old(self).value_store,
                                op.operand_ids()[0],
                                op.operand_kinds()[0],
                            ));
                        }
                        return Err(e);
                    },
                };
                let mut inputs: Vec<Image> = Vec::new();
                inputs.push(input);
                let input_buffers: Vec<Buffer> = Vec::new();
                let mut values: Vec<i64> = Vec::new();
                values.push(o.exposure);
                self.op_impls.exposure.encode(
                    &mut self.runtime,
                    encoder,
                    &mut self.value_store,
                    &inputs,
                    &input_buffers,
                    o.result,
                    values,
                    input.properties,
                    8,
                    false,
                );
                Ok(())
            },
            Op::AdjustContrast(o) => {
                let input = match fetch_image(&self.value_store, o.arg) {
                    Ok(img) => img,
                    Err(e) => {
                        proof {
                            assert(!kind_available(
                                old(self).value_store,
                                op.operand_ids()[0],
                                op.operand_kinds()[0],
                            ));
                        }
                        return Err(e);
                    },
                };
                let stats = match fetch_buffer(&self.value_store, o.basic_stats) {
                    Ok(b) => b,
                    Err(e) => {
                        proof {
                            assert(!kind_available(
                                old(self).value_store,
                                op.operand_ids()[1],
                                op.operand_kinds()[1],
                            ));
                        }
                        return Err(e);
                    },
                };
                let mut inputs: Vec<Image> = Vec::new();
                inputs.push(input);
                let mut input_buffers: Vec<Buffer> = Vec::new();
                input_buffers.push(stats);
                let mut values: Vec<i64> = Vec::new();
                values.push(o.contrast);
                self.op_impls.contrast.encode(
                    &mut self.runtime,
                    encoder,
                    &mut self.value_store,
                    &inputs,
                    &input_buffers,
                    o.result,
                    values,
                    input.properties,
                    8,
                    false,
                );
                Ok(())
            },
            Op::AdjustHighlightsAndShadows(o) => {
                let input = match fetch_image(&self.value_store, o.arg) {
                    Ok(img) => img,
                    Err(e) => {
                        proof {
                            assert(!kind_available(
                                old(self).value_store,
                                op.operand_ids()[0],
                                op.operand_kinds()[0],
                            ));
                        }
                        return Err(e);
                    },
                };
                let mut inputs: Vec<Image> = Vec::new();
                inputs.push(input);
                let input_buffers: Vec<Buffer> = Vec::new();
                let mut values: Vec<i64> = Vec::new();
                values.push(o.highlights);
                values.push(o.shadows);
                self.op_impls.highlights_shadows.encode(
                    &mut self.runtime,
                    encoder,
                    &mut self.value_store,
                    &inputs,
                    &input_buffers,
                    o.result,
                    values,
                    input.properties,
                    8,
                    false,
                );
                Ok(())
            },
            Op::AdjustTemperatureAndTint(o) => {
                let input = match fetch_image(&self.value_store, o.arg) {
                    Ok(img) => img,
                    Err(e) => {
                        proof {
                            assert(!kind_available(
                                old(self).value_store,
                                op.operand_ids()[0],
                                op.operand_kinds()[0],
                            ));
                        }
                        return Err(e);
                    },
                };
                let mut inputs: Vec<Image> = Vec::new();
                inputs.push(input);
                let input_buffers: Vec<Buffer> = Vec::new();
                let mut values: Vec<i64> = Vec::new();
                values.push(o.temperature);
                values.push(o.tint);
                self.op_impls.temperature_tint.encode(
                    &mut self.runtime,
                    encoder,
                    &mut self.value_store,
                    &inputs,
                    &input_buffers,
                    o.result,
                    values,
                    input.properties,
                    8,
                    false,
                );
                Ok(())
            },
            Op::AdjustVibrance(o) => {
                let input = match fetch_image(&self.value_store, o.arg) {
                    Ok(img) => img,
                    Err(e) => {
                        proof {
                            assert(!kind_available(
                                old(self).value_store,
                                op.operand_ids()[0],
                                op.operand_kinds()[0],
                            ));
                        }
                        return Err(e);
                    },
                };
                let mut inputs: Vec<Image> = Vec::new();
                inputs.push(input);
                let input_buffers: Vec<Buffer> = Vec::new();
                let mut values: Vec<i64> = Vec::new();
                values.push(o.vibrance);
                self.op_impls.vibrance.encode(
                    &mut self.runtime,
                    encoder,
                    &mut self.value_store,
                    &inputs,
                    &input_buffers,
                    o.result,
                    values,
                    input.properties,
                    8,
                    false,
                );
                Ok(())
            },
            Op::AdjustSaturation(o) => {
                let input = match fetch_image(&self.value_store, o.arg) {
                    Ok(img) => img,
                    Err(e) => {
                        proof {
                            assert(!kind_available(
                                old(self).value_store,
                                op.operand_ids()[0],
                                op.operand_kinds()[0],
                            ));
                        }
                        return Err(e);
                    },
                };
                let mut inputs: Vec<Image> = Vec::new();
                inputs.push(input);
                let input_buffers: Vec<Buffer> = Vec::new();
                let mut values: Vec<i64> = Vec::new();
                values.push(o.saturation);
                self.op_impls.saturation.encode(
                    &mut self.runtime,
                    encoder,
                    &mut self.value_store,
                    &inputs,
                    &input_buffers,
                    o.result,
                    values,
                    input.properties,
                    8,
                    false,
                );
                Ok(())
            },
            _ => {
                proof {
                    assert(false);
                }
                Err(EngineError::InvalidModule)
            },
        }
    }

    #[verifier::rlimit(100)]
    #[verifier::spinoff_prover]
    fn encode_tone_op(&mut self, encoder: &mut CommandEncoder, op: &Op) -> (r: Result<
        (),
        EngineError,
    >)
        requires
            old(self).wf(),
            old(self).runtime.next_uuid + 4 <= u64::MAX,
            op is ApplyCurve || op is ColorMix || op is DehazePrepare || op is ApplyDehaze || op is ApplyVignette,
        ensures
            final(self).wf(),
            final(self).runtime.next_uuid <= old(self).runtime.next_uuid + 4,
            final(self).runtime.next_uuid >= old(self).runtime.next_uuid,
            r is Ok <==> op_executable(old(self).value_store, *op),
            r is Err ==> final(self).value_store == old(self).value_store && *final(encoder)
                == *old(encoder),
            r is Ok ==> value_matches_op(final(self).value_store, *op),
            op is Input ==> final(self).value_store == old(self).value_store,
            r is Ok ==> final(encoder).commands@.len() >= old(encoder).commands@.len() + (
            if op is Input {
                0int
            } else {
                1int
            }),
            forall|p: int|
                0 <= p < old(encoder).commands@.len() ==> final(encoder).commands@[p] == old(encoder).commands@[p],
            r is Ok ==> forall|x: Id|
                x != op.result_id() ==> final(self).value_store.value_at(x) == old(self).value_store.value_at(x),
            r is Ok && op.result_kind() is ImageKind && !(op is Input) ==> (final(self).value_store.value_at(op.result_id()) matches Some(Value::Image(out))
                && out.properties == out_props_of(old(self).value_store, *op)),
    {
        match op {
            Op::ApplyCurve(o) => {
                let input = match fetch_image(&self.value_store, o.arg) {
                    Ok(img) => img,
                    Err(e) => {
                        proof {
                            assert(!kind_available(
                                old(self).value_store,
                                op.operand_ids()[0],
                                op.operand_kinds()[0],
                            ));
                        }
                        return Err(e);
                    },
                };
                let mut inputs: Vec<Image> = Vec::new();
                inputs.push(input);
                let input_buffers: Vec<Buffer> = Vec::new();
                let mut values: Vec<i64> = Vec::new();
                let mut i: usize = 0;
                while i < o.control_points.len()
                    invariant
                        values@.len() == 2 * i,
                    decreases o.control_points@.len() - i,
                {
                    values.push(o.control_points[i].0);
                    values.push(o.control_points[i].1);
                    i = i + 1;
                }
                self.op_impls.curve.encode(
                    &mut self.runtime,
                    encoder,
                    &mut self.value_store,
                    &inputs,
                    &input_buffers,
                    o.result,
                    values,
                    input.properties,
                    8,
                    false,
                );
                Ok(())
            },
            Op::ColorMix(o) => {
                let input = match fetch_image(&self.value_store, o.arg) {
                    Ok(img) => img,
                    Err(e) => {
                        proof {
                            assert(!kind_available(
                                old(self).value_store,
                                op.operand_ids()[0],
                                op.operand_kinds()[0],
                            ));
                        }
                        return Err(e);
                    },
                };
                let mut inputs: Vec<Image> = Vec::new();
                inputs.push(input);
                let input_buffers: Vec<Buffer> = Vec::new();
                let mut values: Vec<i64> = Vec::new();
                let mut i: usize = 0;
                while i < 8
                    invariant
                        0 <= i <= 8,
                        values@.len() == 3 * i,
                    decreases 8 - i,
                {
                    let g: ColorMixGroup = o.groups[i];
                    values.push(g.hue);
                    values.push(g.saturation);
                    values.push(g.lightness);
                    i = i + 1;
                }
                self.op_impls.color_mix.encode(
                    &mut self.runtime,
                    encoder,
                    &mut self.value_store,
                    &inputs,
                    &input_buffers,
                    o.result,
                    values,
                    input.properties,
                    8,
                    false,
                );
                Ok(())
            },
            Op::DehazePrepare(o) => {
                let input = match fetch_image(&self.value_store, o.arg) {
                    Ok(img) => img,
                    Err(e) => {
                        proof {
                            assert(!kind_available(
                                old(self).value_store,
                                op.operand_ids()[0],
                                op.operand_kinds()[0],
                            ));
                        }
                        return Err(e);
                    },
                };
                let mut inputs: Vec<Image> = Vec::new();
                inputs.push(input);
                let input_buffers: Vec<Buffer> = Vec::new();
                let values: Vec<i64> = Vec::new();
                self.op_impls.dehaze_prepare.encode(
                    &mut self.runtime,
                    encoder,
                    &mut self.value_store,
                    &inputs,
                    &input_buffers,
                    o.result,
                    values,
                    input.properties,
                    16,
                    false,
                );
                Ok(())
            },
            Op::ApplyDehaze(o) => {
                let input = match fetch_image(&self.value_store, o.arg) {
                    Ok(img) => img,
                    Err(e) => {
                        proof {
                            assert(!kind_available(
                                old(self).value_store,
                                op.operand_ids()[0],
                                op.operand_kinds()[0],
                            ));
                        }
                        return Err(e);
                    },
                };
                let dehazed = match fetch_image(&self.value_store, o.dehazed) {
                    Ok(img) => img,
                    Err(e) => {
                        proof {
                            assert(!kind_available(
                                old(self).value_store,
                                op.operand_ids()[1],
                                op.operand_kinds()[1],
                            ));
                        }
                        return Err(e);
                    },
                };
                let mut inputs: Vec<Image> = Vec::new();
                inputs.push(input);
                inputs.push(dehazed);
                let input_buffers: Vec<Buffer> = Vec::new();
                let mut values: Vec<i64> = Vec::new();
                values.push(o.amount);
                self.op_impls.dehaze_apply.encode(
                    &mut self.runtime,
                    encoder,
                    &mut self.value_store,
                    &inputs,
                    &input_buffers,
                    o.result,
                    values,
                    input.properties,
                    16,
                    false,
                );
                Ok(())
            },
            Op::ApplyVignette(o) => {
                let input = match fetch_image(&self.value_store, o.arg) {
                    Ok(img) => img,
                    Err(e) => {
                        proof {
                            assert(!kind_available(
                                old(self).value_store,
                                op.operand_ids()[0],
                                op.operand_kinds()[0],
                            ));
                        }
                        return Err(e);
                    },
                };
                let mut inputs: Vec<Image> = Vec::new();
                inputs.push(input);
                let input_buffers: Vec<Buffer> = Vec::new();
                let mut values: Vec<i64> = Vec::new();
                values.push(o.vignette);
                self.op_impls.vignette.encode(
                    &mut self.runtime,
                    encoder,
                    &mut self.value_store,
                    &inputs,
                    &input_buffers,
                    o.result,
                    values,
                    input.properties,
                    8,
                    false,
                );
                Ok(())
            },
            _ => {
                proof {
                    assert(false);
                }
                Err(EngineError::InvalidModule)
            },
        }
    }

    #[verifier::rlimit(100)]
    #[verifier::spinoff_prover]
    fn encode_geometry_and_mask_op(&mut self, encoder: &mut CommandEncoder, op: &Op) -> (r: Result<
        (),
        EngineError,
    >)
        requires
            old(self).wf(),
            old(self).runtime.next_uuid + 4 <= u64::MAX,
            op is RotateAndCrop || op is Resize || op is Framing || op is ComputeGlobalMask || op is ComputeRadialGradientMask || op is ComputeLinearGradientMask || op is InvertMask || op is AddMask || op is SubtractMask || op is ApplyMaskedEdits,
        ensures
            final(self).wf(),
            final(self).runtime.next_uuid <= old(self).runtime.next_uuid + 4,
            final(self).runtime.next_uuid >= old(self).runtime.next_uuid,
            r is Ok <==> op_executable(old(self).value_store, *op),
            r is Err ==> final(self).value_store == old(self).value_store && *final(encoder)
                == *old(encoder),
            r is Ok ==> value_matches_op(final(self).value_store, *op),
            op is Input ==> final(self).value_store == old(self).value_store,
            r is Ok ==> final(encoder).commands@.len() >= old(encoder).commands@.len() + (
            if op is Input {
                0int
            } else {
                1int
            }),
            forall|p: int|
                0 <= p < old(encoder).commands@.len() ==> final(encoder).commands@[p] == old(encoder).commands@[p],
            r is Ok ==> forall|x: Id|
                x != op.result_id() ==> final(self).value_store.value_at(x) == old(self).value_store.value_at(x),
            r is Ok && op.result_kind() is ImageKind && !(op is Input) ==> (final(self).value_store.value_at(op.result_id()) matches Some(Value::Image(out))
                && out.properties == out_props_of(old(self).value_store, *op)),
    {
        match op {
            Op::RotateAndCrop(o) => {
                let input = match fetch_image(&self.value_store, o.arg) {
                    Ok(img) => img,
                    Err(e) => {
                        proof {
                            assert(!kind_available(
                                old(self).value_store,
                                op.operand_ids()[0],
                                op.operand_kinds()[0],
                            ));
                        }
                        return Err(e);
                    },
                };
                let mut inputs: Vec<Image> = Vec::new();
                inputs.push(input);
                let input_buffers: Vec<Buffer> = Vec::new();
                let mut values: Vec<i64> = Vec::new();
                values.push(o.rect.center.x);
                values.push(o.rect.center.y);
                values.push(o.rect.size.x);
                values.push(o.rect.size.y);
                values.push(o.rotation_degrees);
                let longer = if input.properties.dimensions.0 >= input.properties.dimensions.1 {
                    input.properties.dimensions.0
                } else {
                    input.properties.dimensions.1
                };
                let out_properties = ImageProperties {
                    dimensions: (
                        scaled_dim(longer, o.rect.size.x),
                        scaled_dim(longer, o.rect.size.y),
                    ),
                    ..input.properties
                };
                self.op_impls.rotate_and_crop.encode(
                    &mut self.runtime,
                    encoder,
                    &mut self.value_store,
                    &inputs,
                    &input_buffers,
                    o.result,
                    values,
                    out_properties,
                    16,
                    false,
                );
                Ok(())
            },
            Op::Resize(o) => {
                let input = match fetch_image(&self.value_store, o.arg) {
                    Ok(img) => img,
                    Err(e) => {
                        proof {
                            assert(!kind_available(
                                old(self).value_store,
                                op.operand_ids()[0],
                                op.operand_kinds()[0],
                            ));
                        }
                        return Err(e);
                    },
                };
                let mut inputs: Vec<Image> = Vec::new();
                inputs.push(input);
                let input_buffers: Vec<Buffer> = Vec::new();
                let values: Vec<i64> = Vec::new();
                let out_properties = ImageProperties {
                    dimensions: (o.width, o.height),
                    ..input.properties
                };
                self.op_impls.resize.encode(
                    &mut self.runtime,
                    encoder,
                    &mut self.value_store,
                    &inputs,
                    &input_buffers,
                    o.result,
                    values,
                    out_properties,
                    8,
                    false,
                );
                Ok(())
            },
            Op::Framing(o) => {
                let input = match fetch_image(&self.value_store, o.arg) {
                    Ok(img) => img,
                    Err(e) => {
                        proof {
                            assert(!kind_available(
                                old(self).value_store,
                                op.operand_ids()[0],
                                op.operand_kinds()[0],
                            ));
                        }
                        return Err(e);
                    },
                };
                let mut inputs: Vec<Image> = Vec::new();
                inputs.push(input);
                let input_buffers: Vec<Buffer> = Vec::new();
                let values: Vec<i64> = Vec::new();
                self.op_impls.framing.encode(
                    &mut self.runtime,
                    encoder,
                    &mut self.value_store,
                    &inputs,
                    &input_buffers,
                    o.result,
                    values,
                    input.properties,
                    8,
                    false,
                );
                Ok(())
            },
            Op::ComputeGlobalMask(o) => {
                let target = match fetch_image(&self.value_store, o.target) {
                    Ok(img) => img,
                    Err(e) => {
                        proof {
                            assert(!kind_available(
                                old(self).value_store,
                                op.operand_ids()[0],
                                op.operand_kinds()[0],
                            ));
                        }
                        return Err(e);
                    },
                };
                let inputs: Vec<Image> = Vec::new();
                let input_buffers: Vec<Buffer> = Vec::new();
                let values: Vec<i64> = Vec::new();
                let out_properties = ImageProperties {
                    format: ImageFormat::Rgba8Unorm,
                    ..target.properties
                };
                self.op_impls.global_mask.encode(
                    &mut self.runtime,
                    encoder,
                    &mut self.value_store,
                    &inputs,
                    &input_buffers,
                    o.result,
                    values,
                    out_properties,
                    16,
                    true,
                );
                Ok(())
            },
            Op::ComputeRadialGradientMask(o) => {
                let target = match fetch_image(&self.value_store, o.target) {
                    Ok(img) => img,
                    Err(e) => {
                        proof {
                            assert(!kind_available(
                                old(self).value_store,
                                op.operand_ids()[0],
                                op.operand_kinds()[0],
                            ));
                        }
                        return Err(e);
                    },
                };
                let inputs: Vec<Image> = Vec::new();
                let input_buffers: Vec<Buffer> = Vec::new();
                let mut values: Vec<i64> = Vec::new();
                values.push(o.mask.center_x);
                values.push(o.mask.center_y);
                values.push(o.mask.radius_x);
                values.push(o.mask.radius_y);
                values.push(o.mask.feather);
                values.push(o.mask.rotation);
                let out_properties = ImageProperties {
                    format: ImageFormat::Rgba8Unorm,
                    ..target.properties
                };
                self.op_impls.radial_gradient_mask.encode(
                    &mut self.runtime,
                    encoder,
                    &mut self.value_store,
                    &inputs,
                    &input_buffers,
                    o.result,
                    values,
                    out_properties,
                    16,
                    true,
                );
                Ok(())
            },
            Op::ComputeLinearGradientMask(o) => {
                let target = match fetch_image(&self.value_store, o.target) {
                    Ok(img) => img,
                    Err(e) => {
                        proof {
                            assert(!kind_available(
                                old(self).value_store,
                                op.operand_ids()[0],
                                op.operand_kinds()[0],
                            ));
                        }
                        return Err(e);
                    },
                };
                let inputs: Vec<Image> = Vec::new();
                let input_buffers: Vec<Buffer> = Vec::new();
                let mut values: Vec<i64> = Vec::new();
                values.push(o.mask.begin_x);
                values.push(o.mask.begin_y);
                values.push(o.mask.end_x);
                values.push(o.mask.end_y);
                let out_properties = ImageProperties {
                    format: ImageFormat::Rgba8Unorm,
                    ..target.properties
                };
                self.op_impls.linear_gradient_mask.encode(
                    &mut self.runtime,
                    encoder,
                    &mut self.value_store,
                    &inputs,
                    &input_buffers,
                    o.result,
                    values,
                    out_properties,
                    16,
                    true,
                );
                Ok(())
            },
            Op::InvertMask(o) => {
                let mask_0 = match fetch_image(&self.value_store, o.mask_0) {
                    Ok(img) => img,
                    Err(e) => {
                        proof {
                            assert(!kind_available(
                                old(self).value_store,
                                op.operand_ids()[0],
                                op.operand_kinds()[0],
                            ));
                        }
                        return Err(e);
                    },
                };
                let mut inputs: Vec<Image> = Vec::new();
                inputs.push(mask_0);
                let input_buffers: Vec<Buffer> = Vec::new();
                let values: Vec<i64> = Vec::new();
                self.op_impls.invert_mask.encode(
                    &mut self.runtime,
                    encoder,
                    &mut self.value_store,
                    &inputs,
                    &input_buffers,
                    o.result,
                    values,
                    mask_0.properties,
                    16,
                    true,
                );
                Ok(())
            },
            Op::AddMask(o) => {
                let mask_0 = match fetch_image(&self.value_store, o.mask_0) {
                    Ok(img) => img,
                    Err(e) => {
                        proof {
                            assert(!kind_available(
                                old(self).value_store,
                                op.operand_ids()[0],
                                op.operand_kinds()[0],
                            ));
                        }
                        return Err(e);
                    },
                };
                let mask_1 = match fetch_image(&self.value_store, o.mask_1) {
                    Ok(img) => img,
                    Err(e) => {
                        proof {
                            assert(!kind_available(
                                old(self).value_store,
                                op.operand_ids()[1],
                                op.operand_kinds()[1],
                            ));
                        }
                        return Err(e);
                    },
                };
                let mut inputs: Vec<Image> = Vec::new();
                inputs.push(mask_0);
                inputs.push(mask_1);
                let input_buffers: Vec<Buffer> = Vec::new();
                let values: Vec<i64> = Vec::new();
                self.op_impls.add_mask.encode(
                    &mut self.runtime,
                    encoder,
                    &mut self.value_store,
                    &inputs,
                    &input_buffers,
                    o.result,
                    values,
                    mask_0.properties,
                    16,
                    true,
                );
                Ok(())
            },
            Op::SubtractMask(o) => {
                let mask_0 = match fetch_image(&self.value_store, o.mask_0) {
                    Ok(img) => img,
                    Err(e) => {
                        proof {
                            assert(!kind_available(
                                old(self).value_store,
                                op.operand_ids()[0],
                                op.operand_kinds()[0],
                            ));
                        }
                        return Err(e);
                    },
                };
                let mask_1 = match fetch_image(&self.value_store, o.mask_1) {
                    Ok(img) => img,
                    Err(e) => {
                        proof {
                            assert(!kind_available(
                                old(self).value_store,
                                op.operand_ids()[1],
                                op.operand_kinds()[1],
                            ));
                        }
                        return Err(e);
                    },
                };
                let mut inputs: Vec<Image> = Vec::new();
                inputs.push(mask_0);
                inputs.push(mask_1);
                let input_buffers: Vec<Buffer> = Vec::new();
                let values: Vec<i64> = Vec::new();
                self.op_impls.subtract_mask.encode(
                    &mut self.runtime,
                    encoder,
                    &mut self.value_store,
                    &inputs,
                    &input_buffers,
                    o.result,
                    values,
                    mask_0.properties,
                    16,
                    true,
                );
                Ok(())
            },
            Op::ApplyMaskedEdits(o) => {
                let base = match fetch_image(&self.value_store, o.base) {
                    Ok(img) => img,
                    Err(e) => {
                        proof {
                            assert(!kind_available(
                                old(self).value_store,
                                op.operand_ids()[0],
                                op.operand_kinds()[0],
                            ));
                        }
                        return Err(e);
                    },
                };
                let adjusted = match fetch_image(&self.value_store, o.adjusted) {
                    Ok(img) => img,
                    Err(e) => {
                        proof {
                            assert(!kind_available(
                                old(self).value_store,
                                op.operand_ids()[1],
                                op.operand_kinds()[1],
                            ));
                        }
                        return Err(e);
                    },
                };
                let mask = match fetch_image(&self.value_store, o.mask) {
                    Ok(img) => img,
                    Err(e) => {
                        proof {
                            assert(!kind_available(
                                old(self).value_store,
                                op.operand_ids()[2],
                                op.operand_kinds()[2],
                            ));
                        }
                        return Err(e);
                    },
                };
                let mut inputs: Vec<Image> = Vec::new();
                inputs.push(base);
                inputs.push(adjusted);
                inputs.push(mask);
                let input_buffers: Vec<Buffer> = Vec::new();
                let values: Vec<i64> = Vec::new();
                self.op_impls.apply_masked_edits.encode(
                    &mut self.runtime,
                    encoder,
                    &mut self.value_store,
                    &inputs,
                    &input_buffers,
                    o.result,
                    values,
                    base.properties,
                    16,
                    false,
                );
                Ok(())
            },
            _ => {
                proof {
                    assert(false);
                }
                Err(EngineError::InvalidModule)
            },
        }
    }

    #[verifier::rlimit(100)]
    #[verifier::spinoff_prover]
    fn encode_statistics_op(&mut self, encoder: &mut CommandEncoder, op: &Op) -> (r: Result<
        (),
        EngineError,
    >)
        requires
            old(self).wf(),
            old(self).runtime.next_uuid + 4 <= u64::MAX,
            op is ComputeBasicStatistics || op is ComputeHistogram || op is CollectDataForEditor || op is CollectStatistics,
        ensures
            final(self).wf(),
            final(self).runtime.next_uuid <= old(self).runtime.next_uuid + 4,
            final(self).runtime.next_uuid >= old(self).runtime.next_uuid,
            r is Ok <==> op_executable(old(self).value_store, *op),
            r is Err ==> final(self).value_store == old(self).value_store && *final(encoder)
                == *old(encoder),
            r is Ok ==> value_matches_op(final(self).value_store, *op),
            op is Input ==> final(self).value_store == old(self).value_store,
            r is Ok ==> final(encoder).commands@.len() >= old(encoder).commands@.len() + (
            if op is Input {
                0int
            } else {
                1int
            }),
            forall|p: int|
                0 <= p < old(encoder).commands@.len() ==> final(encoder).commands@[p] == old(encoder).commands@[p],
            r is Ok ==> forall|x: Id|
                x != op.result_id() ==> final(self).value_store.value_at(x) == old(self).value_store.value_at(x),
            r is Ok && op.result_kind() is ImageKind && !(op is Input) ==> (final(self).value_store.value_at(op.result_id()) matches Some(Value::Image(out))
                && out.properties == out_props_of(old(self).value_store, *op)),
    {
        match op {
            Op::ComputeBasicStatistics(o) => {
                let r = self.op_impls.basic_statistics.encode_commands(
                    &mut self.runtime,
                    encoder,
                    o,
                    &mut self.value_store,
                );
                proof {
                    assert(op.operand_ids() =~= seq![o.arg]);
                    assert(op.operand_kinds()[0] == ValueKind::ImageKind);
                    if r is Err {
                        assert(!kind_available(
                            old(self).value_store,
                            op.operand_ids()[0],
                            op.operand_kinds()[0],
                        ));
                    }
                }
                r
            },
            Op::ComputeHistogram(o) => {
                let r = self.op_impls.histogram.encode_commands(
                    &mut self.runtime,
                    encoder,
                    o,
                    &mut self.value_store,
                );
                proof {
                    assert(op.operand_ids() =~= seq![o.arg]);
                    assert(op.operand_kinds()[0] == ValueKind::ImageKind);
                    if r is Err {
                        assert(!kind_available(
                            old(self).value_store,
                            op.operand_ids()[0],
                            op.operand_kinds()[0],
                        ));
                    }
                }
                r
            },
            Op::CollectDataForEditor(o) => {
                let r = self.op_impls.collect_data_for_editor.encode_commands(
                    &mut self.runtime,
                    encoder,
                    o,
                    &mut self.value_store,
                );
                proof {
                    assert(op.operand_ids() =~= seq![o.histogram_final]);
                    assert(op.operand_kinds()[0] == ValueKind::BufferKind);
                    if r is Err {
                        assert(!kind_available(
                            old(self).value_store,
                            op.operand_ids()[0],
                            op.operand_kinds()[0],
                        ));
                    }
                }
                r
            },
            Op::CollectStatistics(o) => {
                let r = self.op_impls.collect_statistics.encode_commands(
                    &mut self.runtime,
                    encoder,
                    o,
                    &mut self.value_store,
                );
                proof {
                    assert(op.operand_ids() =~= seq![o.histogram]);
                    assert(op.operand_kinds()[0] == ValueKind::BufferKind);
                    if r is Err {
                        assert(!kind_available(
                            old(self).value_store,
                            op.operand_ids()[0],
                            op.operand_kinds()[0],
                        ));
                    }
                }
                r
            },
            _ => {
                proof {
                    assert(false);
                }
                Err(EngineError::InvalidModule)
            },
        }
    }


    /// Runs one module: inserts the input image at the module input,
    /// walks the ops in order encoding each one, and returns the value
    /// at the module output together with the encoded submission. A
    /// well-formed, well-typed module whose output is an image — such
    /// as any module the compiler produces — executes without error.
    pub fn execute(&mut self, module: &Module, input_image: Image) -> (r: Result<
        ExecutionResult,
        EngineError,
    >)
        requires
            old(self).wf(),
            module.wf(),
            old(self).runtime.next_uuid + 4 * module.ops@.len() + 4 <= u64::MAX,
        ensures
            final(self).wf(),
            module.well_typed() && module.defines_kind(
                module.output_id,
                crate::ir::ValueKind::ImageKind,
            ) ==> r is Ok,
            r matches Ok(res) ==> final(self).value_store.value_at(module.output_id) == Some(
                Value::Image(res.final_image),
            ),
            r is Ok ==> store_covers(final(self).value_store, *module, module.ops@.len() as int),
            r matches Ok(res) ==> res.encoder.commands@.len() >= num_command_ops(module.ops@),
            r is Ok && input_never_redefined(*module) ==> final(self).value_store.value_at(
                module.input_id,
            ) == Some(Value::Image(input_image)),
            r matches Ok(res) ==> (input_never_redefined(*module) && module.output_id
                == module.input_id ==> res.final_image == input_image),
    {
        self.op_impls.reset();
        self.value_store.insert(module.input_id, Value::Image(input_image));
        let mut encoder = self.runtime.create_command_encoder();
        let ghost start_uuid = self.runtime.next_uuid;
        let n = module.ops.len();
        let mut idx: usize = 0;
        while idx < n
            invariant
                0 <= idx <= n,
                n == module.ops@.len(),
                module.wf(),
                self.wf(),
                self.runtime.next_uuid <= start_uuid + 4 * idx,
                start_uuid + 4 * (n as int) + 4 <= u64::MAX,
                store_covers(self.value_store, *module, idx as int),
                encoder.commands@.len() >= num_command_ops(module.ops@.take(idx as int)),
                input_never_redefined(*module) ==> self.value_store.value_at(module.input_id)
                    == Some(Value::Image(input_image)),
                module.well_typed() ==> image_available(self.value_store, module.input_id),
            decreases n - idx,
        {
            let ghost pre_vs = self.value_store;
            let op = &module.ops[idx];
            proof {
                if module.well_typed() {
                    lemma_op_operands_available(module, &self.value_store, idx as int);
                    if module.ops@[idx as int] is Input {
                        assert(module.ops@[idx as int].result_id() == module.input_id);
                    }
                    assert(op_executable(self.value_store, module.ops@[idx as int]));
                }
            }
            let res = self.encode_op(&mut encoder, op);
            match res {
                Ok(()) => {},
                Err(e) => {
                    return Err(e);
                },
            }
            proof {
                lemma_num_command_ops_take(module.ops@, idx as int);
                lemma_covers_extend(module, &pre_vs, &self.value_store, idx as int);
                if module.well_typed() {
                    let op_now = module.ops@[idx as int];
                    if op_now.result_id() == module.input_id {
                        let j1 = choose|j: int|
                            0 <= j < module.ops@.len() && (#[trigger] module.ops@[j].result_id())
                                == module.input_id && module.ops@[j].result_kind()
                                == crate::ir::ValueKind::ImageKind;
                        if j1 != idx as int {
                            if j1 < idx as int {
                                assert(module.ops@[j1].result_id() != module.ops@[
                                    idx as int
                                ].result_id());
                            } else {
                                assert(module.ops@[idx as int].result_id() != module.ops@[
                                    j1
                                ].result_id());
                            }
                        }
                        assert(op_now.result_kind() == crate::ir::ValueKind::ImageKind);
                        assert(value_matches_op(self.value_store, op_now));
                    } else {
                        assert(self.value_store.value_at(module.input_id) == pre_vs.value_at(
                            module.input_id,
                        ));
                    }
                }
            }
            idx = idx + 1;
        }
        proof {
            if module.well_typed() && module.defines_kind(
                module.output_id,
                crate::ir::ValueKind::ImageKind,
            ) {
                let j1 = choose|j: int|
                    0 <= j < module.ops@.len() && (#[trigger] module.ops@[j].result_id())
                        == module.output_id && module.ops@[j].result_kind()
                        == crate::ir::ValueKind::ImageKind;
                assert(module.is_defined_before(n as int, module.output_id));
                lemma_operand_available(
                    module,
                    &self.value_store,
                    n as int,
                    module.output_id,
                    crate::ir::ValueKind::ImageKind,
                );
            }
        }
        proof {
            assert(module.ops@.take(n as int) =~= module.ops@);
        }
        match fetch_image(&self.value_store, self.get_output_of(module)) {
            Ok(img) => Ok(ExecutionResult { final_image: img, encoder }),
            Err(e) => Err(e),
        }
    }

    fn get_output_of(&self, module: &Module) -> (r: Id)
        ensures
            r == module.output_id,
    {
        module.output_id
    }
}

} // verus!
