use vstd::prelude::*;
use crate::bind_group::BindGroupDescriptor;
use crate::bind_group::BindGroupEntry;
use crate::bind_group::BindGroupManager;
use crate::bind_group::BindingResource;
use crate::error::EngineError;
use crate::ir::ComputeBasicStatisticsOp;
use crate::math::div_up;
use crate::math::div_up_spec;
use crate::runtime::Buffer;
use crate::runtime::BufferProperties;
use crate::runtime::Command;
use crate::runtime::CommandEncoder;
use crate::runtime::Runtime;
use crate::value_store::Value;
use crate::value_store::ValueStore;

verus! {

/// The byte size of the statistics output: three 32-bit counters, one
/// per channel sum.
pub const BASIC_STATISTICS_BUFFER_SIZE: usize = 12;

/// Two compute passes filling three atomic counters with the channel
/// sums of the input image: a one-workgroup clear pass, then a
/// tile-wise accumulation over the image.
pub struct ComputeBasicStatisticsImpl {
    pub pipeline_clear: u64,
    pub bind_group_manager_clear: BindGroupManager,
    pub pipeline_compute: u64,
    pub bind_group_manager_compute: BindGroupManager,
}

impl ComputeBasicStatisticsImpl {
    pub fn new(runtime: &mut Runtime) -> (r: Self)
        requires
            old(runtime).next_uuid + 4 <= u64::MAX,
        ensures
            r.pipeline_clear == old(runtime).next_uuid,
            r.bind_group_manager_clear.layout == old(runtime).next_uuid + 1,
            r.pipeline_compute == old(runtime).next_uuid + 2,
            r.bind_group_manager_compute.layout == old(runtime).next_uuid + 3,
            r.bind_group_manager_clear.num_bind_groups() == 0,
            r.bind_group_manager_compute.num_bind_groups() == 0,
            final(runtime).next_uuid == old(runtime).next_uuid + 4,
            final(runtime).queue.writes == old(runtime).queue.writes,
    {
        let (pipeline_clear, layout_clear) = runtime.create_compute_pipeline();
        let bind_group_manager_clear = BindGroupManager::new(layout_clear);
        let (pipeline_compute, layout_compute) = runtime.create_compute_pipeline();
        let bind_group_manager_compute = BindGroupManager::new(layout_compute);
        ComputeBasicStatisticsImpl {
            pipeline_clear,
            bind_group_manager_clear,
            pipeline_compute,
            bind_group_manager_compute,
        }
    }

    pub fn reset(&mut self)
        ensures
            *final(self) == *old(self),
    {
    }

    /// Encodes the clear dispatch and the accumulation dispatch; the
    /// result is a host-readable buffer of the three counters. Fails
    /// exactly when the argument is not an image in the store.
    pub fn encode_commands(
        &mut self,
        runtime: &mut Runtime,
        encoder: &mut CommandEncoder,
        op: &ComputeBasicStatisticsOp,
        value_store: &mut ValueStore,
    ) -> (r: Result<(), EngineError>)
        requires
            old(runtime).next_uuid + 3 <= u64::MAX,
        ensures
            final(self).pipeline_clear == old(self).pipeline_clear,
            final(self).pipeline_compute == old(self).pipeline_compute,
            final(runtime).next_uuid >= old(runtime).next_uuid,
            final(runtime).next_uuid <= old(runtime).next_uuid + 3,
            final(runtime).queue.writes@.len() == old(runtime).queue.writes@.len(),
            r is Ok <==> (old(value_store).value_at(op.arg) matches Some(Value::Image(_))),
            r is Err ==> *final(value_store) == *old(value_store) && *final(encoder) == *old(
                encoder,
            ),
            r is Ok ==> (old(value_store).value_at(op.arg) matches Some(Value::Image(input))
                && (final(value_store).value_at(op.result) matches Some(Value::Buffer(out))
                && out.properties == (BufferProperties {
                    size: BASIC_STATISTICS_BUFFER_SIZE,
                    host_readable: true,
                })) && (forall|x: crate::ir::Id|
                x != op.result ==> final(value_store).value_at(x) == old(value_store).value_at(x))
                && exists|bg_clear: u64, bg_compute: u64|
                final(encoder).commands@ == old(encoder).commands@.push(
                    Command::Dispatch {
                        pipeline: old(self).pipeline_clear,
                        bind_group: bg_clear,
                        workgroups: (1u32, 1u32, 1u32),
                    },
                ).push(
                    Command::Dispatch {
                        pipeline: old(self).pipeline_compute,
                        bind_group: bg_compute,
                        workgroups: (
                            div_up_spec(input.properties.dimensions.0, 8),
                            div_up_spec(input.properties.dimensions.1, 8),
                            1u32,
                        ),
                    },
                )),
    {
        let input_value = value_store.get(op.arg);
        let input_img = match input_value {
            Some(v) => match v.as_image() {
                Some(img) => img,
                None => {
                    return Err(EngineError::InvalidModule);
                },
            },
            None => {
                return Err(EngineError::InvalidModule);
            },
        };

        let buffer_properties = BufferProperties {
            size: BASIC_STATISTICS_BUFFER_SIZE,
            host_readable: true,
        };
        let output_buffer: Buffer = value_store.ensure_value_at_id_is_buffer_of_properties(
            runtime,
            op.result,
            &buffer_properties,
        );

        let mut clear_entries: Vec<BindGroupEntry> = Vec::new();
        clear_entries.push(
            BindGroupEntry { binding: 0, resource: BindingResource::buffer(&output_buffer) },
        );
        let bind_group_clear = self.bind_group_manager_clear.get_or_create(
            runtime,
            BindGroupDescriptor { entries: clear_entries },
        );

        let mut compute_entries: Vec<BindGroupEntry> = Vec::new();
        compute_entries.push(
            BindGroupEntry { binding: 0, resource: BindingResource::texture(&input_img) },
        );
        compute_entries.push(
            BindGroupEntry { binding: 1, resource: BindingResource::buffer(&output_buffer) },
        );
        let bind_group_compute = self.bind_group_manager_compute.get_or_create(
            runtime,
            BindGroupDescriptor { entries: compute_entries },
        );

        encoder.dispatch(self.pipeline_clear, bind_group_clear, 1, 1, 1);
        let num_workgroups_x = div_up(input_img.properties.dimensions.0, 8);
        let num_workgroups_y = div_up(input_img.properties.dimensions.1, 8);
        encoder.dispatch(self.pipeline_compute, bind_group_compute, num_workgroups_x, num_workgroups_y, 1);
        Ok(())
    }
}

/// The histogram uses the same two-pass shape with 256 bins for each
/// of the four channels.
pub const HISTOGRAM_BUFFER_SIZE: usize = 4096;

/// Clear-then-accumulate histogram over the input image: 256 bins per
/// channel filled with atomic adds.
pub struct ComputeHistogramImpl {
    pub pipeline_clear: u64,
    pub bind_group_manager_clear: BindGroupManager,
    pub pipeline_compute: u64,
    pub bind_group_manager_compute: BindGroupManager,
}

impl ComputeHistogramImpl {
    pub fn new(runtime: &mut Runtime) -> (r: Self)
        requires
            old(runtime).next_uuid + 4 <= u64::MAX,
        ensures
            r.pipeline_clear == old(runtime).next_uuid,
            r.bind_group_manager_clear.layout == old(runtime).next_uuid + 1,
            r.pipeline_compute == old(runtime).next_uuid + 2,
            r.bind_group_manager_compute.layout == old(runtime).next_uuid + 3,
            r.bind_group_manager_clear.num_bind_groups() == 0,
            r.bind_group_manager_compute.num_bind_groups() == 0,
            final(runtime).next_uuid == old(runtime).next_uuid + 4,
            final(runtime).queue.writes == old(runtime).queue.writes,
    {
        let (pipeline_clear, layout_clear) = runtime.create_compute_pipeline();
        let bind_group_manager_clear = BindGroupManager::new(layout_clear);
        let (pipeline_compute, layout_compute) = runtime.create_compute_pipeline();
        let bind_group_manager_compute = BindGroupManager::new(layout_compute);
        ComputeHistogramImpl {
            pipeline_clear,
            bind_group_manager_clear,
            pipeline_compute,
            bind_group_manager_compute,
        }
    }

    pub fn reset(&mut self)
        ensures
            *final(self) == *old(self),
    {
    }

    /// Encodes the clear dispatch and the accumulation dispatch; the
    /// result is the histogram buffer, not yet host readable. Fails
    /// exactly when the argument is not an image in the store.
    pub fn encode_commands(
        &mut self,
        runtime: &mut Runtime,
        encoder: &mut CommandEncoder,
        op: &crate::ir::ComputeHistogramOp,
        value_store: &mut ValueStore,
    ) -> (r: Result<(), EngineError>)
        requires
            old(runtime).next_uuid + 3 <= u64::MAX,
        ensures
            final(self).pipeline_clear == old(self).pipeline_clear,
            final(self).pipeline_compute == old(self).pipeline_compute,
            final(runtime).next_uuid >= old(runtime).next_uuid,
            final(runtime).next_uuid <= old(runtime).next_uuid + 3,
            final(runtime).queue.writes@.len() == old(runtime).queue.writes@.len(),
            r is Ok <==> (old(value_store).value_at(op.arg) matches Some(Value::Image(_))),
            r is Err ==> *final(value_store) == *old(value_store) && *final(encoder) == *old(
                encoder,
            ),
            r is Ok ==> (old(value_store).value_at(op.arg) matches Some(Value::Image(input))
                && (final(value_store).value_at(op.result) matches Some(Value::Buffer(out))
                && out.properties == (BufferProperties {
                    size: HISTOGRAM_BUFFER_SIZE,
                    host_readable: false,
                })) && (forall|x: crate::ir::Id|
                x != op.result ==> final(value_store).value_at(x) == old(value_store).value_at(x))
                && exists|bg_clear: u64, bg_compute: u64|
                final(encoder).commands@ == old(encoder).commands@.push(
                    Command::Dispatch {
                        pipeline: old(self).pipeline_clear,
                        bind_group: bg_clear,
                        workgroups: (1u32, 1u32, 1u32),
                    },
                ).push(
                    Command::Dispatch {
                        pipeline: old(self).pipeline_compute,
                        bind_group: bg_compute,
                        workgroups: (
                            div_up_spec(input.properties.dimensions.0, 8),
                            div_up_spec(input.properties.dimensions.1, 8),
                            1u32,
                        ),
                    },
                )),
    {
        let input_value = value_store.get(op.arg);
        let input_img = match input_value {
            Some(v) => match v.as_image() {
                Some(img) => img,
                None => {
                    return Err(EngineError::InvalidModule);
                },
            },
            None => {
                return Err(EngineError::InvalidModule);
            },
        };

        let buffer_properties = BufferProperties {
            size: HISTOGRAM_BUFFER_SIZE,
            host_readable: false,
        };
        let output_buffer: Buffer = value_store.ensure_value_at_id_is_buffer_of_properties(
            runtime,
            op.result,
            &buffer_properties,
        );

        let mut clear_entries: Vec<BindGroupEntry> = Vec::new();
        clear_entries.push(
            BindGroupEntry { binding: 0, resource: BindingResource::buffer(&output_buffer) },
        );
        let bind_group_clear = self.bind_group_manager_clear.get_or_create(
            runtime,
            BindGroupDescriptor { entries: clear_entries },
        );

        let mut compute_entries: Vec<BindGroupEntry> = Vec::new();
        compute_entries.push(
            BindGroupEntry { binding: 0, resource: BindingResource::texture(&input_img) },
        );
        compute_entries.push(
            BindGroupEntry { binding: 1, resource: BindingResource::buffer(&output_buffer) },
        );
        let bind_group_compute = self.bind_group_manager_compute.get_or_create(
            runtime,
            BindGroupDescriptor { entries: compute_entries },
        );

        encoder.dispatch(self.pipeline_clear, bind_group_clear, 1, 1, 1);
        let num_workgroups_x = div_up(input_img.properties.dimensions.0, 8);
        let num_workgroups_y = div_up(input_img.properties.dimensions.1, 8);
        encoder.dispatch(self.pipeline_compute, bind_group_compute, num_workgroups_x, num_workgroups_y, 1);
        Ok(())
    }
}

} // verus!
