use vstd::prelude::*;
use crate::error::EngineError;
use crate::ir::CollectDataForEditorOp;
use crate::ir::CollectStatisticsOp;
use crate::ir::Id;
use crate::runtime::Buffer;
use crate::runtime::BufferProperties;
use crate::runtime::Command;
use crate::runtime::CommandEncoder;
use crate::runtime::Runtime;
use crate::value_store::Value;
use crate::value_store::ValueStore;

verus! {

/// Copies the histogram buffer into a host-readable buffer of the
/// same size, so the statistics can be mapped after submission.
pub struct CollectStatisticsImpl {}

impl CollectStatisticsImpl {
    pub fn new() -> (r: Self) {
        CollectStatisticsImpl {}
    }

    pub fn reset(&mut self)
        ensures
            *final(self) == *old(self),
    {
    }

    /// Fails exactly when the histogram operand is not a buffer in the
    /// store; otherwise copies it to the host-readable result buffer.
    pub fn encode_commands(
        &self,
        runtime: &mut Runtime,
        encoder: &mut CommandEncoder,
        op: &CollectStatisticsOp,
        value_store: &mut ValueStore,
    ) -> (r: Result<(), EngineError>)
        requires
            old(runtime).next_uuid < u64::MAX,
        ensures
            final(runtime).next_uuid >= old(runtime).next_uuid,
            final(runtime).next_uuid <= old(runtime).next_uuid + 1,
            final(runtime).queue.writes@.len() == old(runtime).queue.writes@.len(),
            r is Ok <==> (old(value_store).value_at(op.histogram) matches Some(
                Value::Buffer(_),
            )),
            r is Err ==> *final(value_store) == *old(value_store) && *final(encoder) == *old(
                encoder,
            ),
            r is Ok ==> (old(value_store).value_at(op.histogram) matches Some(
                Value::Buffer(histogram),
            ) && (final(value_store).value_at(op.result) matches Some(Value::Buffer(out))
                && out.properties == (BufferProperties {
                    size: histogram.properties.size,
                    host_readable: true,
                }) && final(encoder).commands@ == old(encoder).commands@.push(
                Command::CopyBufferToBuffer {
                    src: histogram.uuid,
                    dst: out.uuid,
                    size: histogram.properties.size,
                },
            )) && (forall|x: Id|
                x != op.result ==> final(value_store).value_at(x) == old(value_store).value_at(
                    x,
                ))),
    {
        let histogram_value = value_store.get(op.histogram);
        let histogram_buffer = match histogram_value {
            Some(v) => match v.as_buffer() {
                Some(b) => b,
                None => {
                    return Err(EngineError::InvalidModule);
                },
            },
            None => {
                return Err(EngineError::InvalidModule);
            },
        };
        let result_properties = BufferProperties {
            size: histogram_buffer.properties.size,
            host_readable: true,
        };
        let result_buffer: Buffer = value_store.ensure_value_at_id_is_buffer_of_properties(
            runtime,
            op.result,
            &result_properties,
        );
        encoder.copy_buffer_to_buffer(
            &histogram_buffer,
            &result_buffer,
            histogram_buffer.properties.size,
        );
        Ok(())
    }
}

/// The editor-facing variant of the statistics copy: same encoding,
/// driven by the op that names the final histogram.
pub struct CollectDataForEditorImpl {
    pub inner: CollectStatisticsImpl,
}

impl CollectDataForEditorImpl {
    pub fn new() -> (r: Self) {
        CollectDataForEditorImpl { inner: CollectStatisticsImpl::new() }
    }

    pub fn reset(&mut self)
        ensures
            *final(self) == *old(self),
    {
    }

    /// Fails exactly when the final-histogram operand is not a buffer
    /// in the store; otherwise copies it to the host-readable result.
    pub fn encode_commands(
        &self,
        runtime: &mut Runtime,
        encoder: &mut CommandEncoder,
        op: &CollectDataForEditorOp,
        value_store: &mut ValueStore,
    ) -> (r: Result<(), EngineError>)
        requires
            old(runtime).next_uuid < u64::MAX,
        ensures
            final(runtime).next_uuid >= old(runtime).next_uuid,
            final(runtime).next_uuid <= old(runtime).next_uuid + 1,
            final(runtime).queue.writes@.len() == old(runtime).queue.writes@.len(),
            r is Ok <==> (old(value_store).value_at(op.histogram_final) matches Some(
                Value::Buffer(_),
            )),
            r is Err ==> *final(value_store) == *old(value_store) && *final(encoder) == *old(
                encoder,
            ),
            r is Ok ==> (old(value_store).value_at(op.histogram_final) matches Some(
                Value::Buffer(histogram),
            ) && (final(value_store).value_at(op.result) matches Some(Value::Buffer(out))
                && out.properties == (BufferProperties {
                    size: histogram.properties.size,
                    host_readable: true,
                }) && final(encoder).commands@ == old(encoder).commands@.push(
                Command::CopyBufferToBuffer {
                    src: histogram.uuid,
                    dst: out.uuid,
                    size: histogram.properties.size,
                },
            )) && (forall|x: Id|
                x != op.result ==> final(value_store).value_at(x) == old(value_store).value_at(
                    x,
                ))),
    {
        let adapted = CollectStatisticsOp { result: op.result, histogram: op.histogram_final };
        self.inner.encode_commands(runtime, encoder, &adapted, value_store)
    }
}

} // verus!
