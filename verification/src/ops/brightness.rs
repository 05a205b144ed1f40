use vstd::prelude::*;
use crate::error::EngineError;
use crate::ir::BrightnessAdjust;
use crate::ir::Id;
use crate::runtime::Buffer;
use crate::runtime::BufferProperties;
use crate::runtime::Command;
use crate::runtime::CommandEncoder;
use crate::runtime::Runtime;
use crate::value_store::Value;
use crate::value_store::ValueStore;

verus! {

/// The brightness op of the reduced pipeline. Unlike the ring-buffered
/// ops it owns a single uniform buffer, builds a fresh bind group per
/// call, encodes onto its own encoder — one workgroup per texel — and
/// hands the encoder back for submission.
pub struct BrightnessAdjustImpl {
    pub pipeline: u64,
    pub bind_group_layout: u64,
    pub uniform_buffer: Buffer,
}

impl BrightnessAdjustImpl {
    pub fn new(runtime: &mut Runtime) -> (r: Self)
        requires
            old(runtime).next_uuid + 3 <= u64::MAX,
        ensures
            r.pipeline == old(runtime).next_uuid,
            r.bind_group_layout == old(runtime).next_uuid + 1,
            r.uniform_buffer.uuid == old(runtime).next_uuid + 2,
            final(runtime).next_uuid == old(runtime).next_uuid + 3,
            final(runtime).queue.writes == old(runtime).queue.writes,
            r.uniform_buffer.properties == (BufferProperties { size: 4, host_readable: false }),
    {
        let (pipeline, bind_group_layout) = runtime.create_compute_pipeline();
        let uniform_buffer = runtime.create_buffer_of_properties(
            BufferProperties { size: 4, host_readable: false },
        );
        BrightnessAdjustImpl { pipeline, bind_group_layout, uniform_buffer }
    }

    /// Applies the adjustment: uploads the brightness, dispatches one
    /// workgroup per texel of the input, regenerates the output's mip
    /// chain, and returns the encoder holding the commands. Fails
    /// exactly when the argument is not an image in the store.
    pub fn apply(
        &mut self,
        runtime: &mut Runtime,
        op: &BrightnessAdjust,
        value_store: &mut ValueStore,
    ) -> (r: Result<CommandEncoder, EngineError>)
        requires
            old(runtime).next_uuid + 3 <= u64::MAX,
        ensures
            final(self).pipeline == old(self).pipeline,
            final(self).uniform_buffer == old(self).uniform_buffer,
            final(runtime).next_uuid >= old(runtime).next_uuid,
            r is Ok <==> (old(value_store).value_at(op.arg) matches Some(Value::Image(_))),
            r is Err ==> *final(value_store) == *old(value_store) && *final(runtime) == *old(
                runtime,
            ),
            r is Ok ==> (old(value_store).value_at(op.arg) matches Some(Value::Image(input))
                && (final(value_store).value_at(op.result) matches Some(Value::Image(out))
                && out.properties == input.properties && (r matches Ok(encoder)
                && encoder.commands@.len() == 2 && (encoder.commands@[0] matches Command::Dispatch {
                    pipeline,
                    bind_group,
                    workgroups,
                } && pipeline == old(self).pipeline && workgroups == (
                    input.properties.dimensions.0,
                    input.properties.dimensions.1,
                    1u32,
                )) && encoder.commands@[1] == (Command::GenerateMipmaps { image: out.uuid })))
                && (forall|x: Id|
                x != op.result ==> final(value_store).value_at(x) == old(value_store).value_at(x))
                && final(runtime).queue.writes@.len() == old(runtime).queue.writes@.len() + 1
                && final(runtime).queue.writes@.last().buffer == old(self).uniform_buffer.uuid
                && final(runtime).queue.writes@.last().values@ =~= seq![op.brightness]),
    {
        let input_value = value_store.get(op.arg);
        let input_img = match input_value {
            Some(v) => match v.as_image() {
                Some(img) => img,
                None => {
                    return Err(EngineError::InvalidModule);
                },
            },
            None => {
                return Err(EngineError::InvalidModule);
            },
        };

        let output_img = value_store.ensure_value_at_id_is_image_of_properties(
            runtime,
            op.result,
            &input_img.properties,
        );

        let mut values: Vec<i64> = Vec::new();
        values.push(op.brightness);
        runtime.queue.write_buffer(&self.uniform_buffer, values);

        // this op builds a fresh bind group for every call rather
        // than going through a cache
        let bind_group = runtime.fresh_uuid();

        let mut encoder = runtime.create_command_encoder();
        encoder.dispatch(
            self.pipeline,
            bind_group,
            input_img.properties.dimensions.0,
            input_img.properties.dimensions.1,
            1,
        );
        encoder.commands.push(Command::GenerateMipmaps { image: output_img.uuid });
        Ok(encoder)
    }
}

} // verus!
