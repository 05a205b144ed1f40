use vstd::prelude::*;
use crate::bind_group::BindGroupDescriptor;
use crate::bind_group::BindGroupEntry;
use crate::bind_group::BindGroupManager;
use crate::bind_group::BindingResource;
use crate::ir::Id;
use crate::math::div_up;
use crate::math::div_up_spec;
use crate::ring_buffer::RingBuffer;
use crate::runtime::Buffer;
use crate::runtime::BufferProperties;
use crate::runtime::Command;
use crate::runtime::CommandEncoder;
use crate::runtime::Image;
use crate::runtime::ImageProperties;
use crate::runtime::Runtime;
use crate::value_store::Value;
use crate::value_store::ValueStore;

verus! {

/// One compute pipeline that reads some input textures and an optional
/// uniform block, and writes one storage texture; the shape shared by
/// the per-pixel adjustment, curve, color and mask ops. Each op kind
/// owns its own instance, with its own pipeline, bind group cache and
/// uniform ring buffer.
pub struct PointwiseOpImpl {
    pub pipeline: u64,
    pub bind_group_manager: BindGroupManager,
    pub ring_buffer: RingBuffer,
}

impl PointwiseOpImpl {
    pub open spec fn wf(&self) -> bool {
        self.ring_buffer.wf()
    }

    pub fn new(runtime: &mut Runtime, uniform_size: usize) -> (r: Self)
        requires
            old(runtime).next_uuid + 2 <= u64::MAX,
        ensures
            r.wf(),
            r.pipeline == old(runtime).next_uuid,
            r.bind_group_manager.layout == old(runtime).next_uuid + 1,
            r.bind_group_manager.num_bind_groups() == 0,
            r.ring_buffer.num_used == 0,
            r.ring_buffer.buffers@.len() == 0,
            r.ring_buffer.properties == (BufferProperties { size: uniform_size, host_readable: false }),
            final(runtime).next_uuid == old(runtime).next_uuid + 2,
            final(runtime).queue.writes == old(runtime).queue.writes,
    {
        let (pipeline, layout) = runtime.create_compute_pipeline();
        let bind_group_manager = BindGroupManager::new(layout);
        let ring_buffer = RingBuffer::new(
            BufferProperties { size: uniform_size, host_readable: false },
        );
        PointwiseOpImpl { pipeline, bind_group_manager, ring_buffer }
    }

    /// Frees the uniform ring buffer slots for the next execution.
    pub fn reset(&mut self)
        ensures
            final(self).ring_buffer.num_used == 0,
            final(self).pipeline == old(self).pipeline,
            final(self).bind_group_manager == old(self).bind_group_manager,
            old(self).wf() ==> final(self).wf(),
    {
        self.ring_buffer.mark_all_available();
    }

    /// Encodes one dispatch covering the output image: the input
    /// textures are bound in order, then the output storage texture,
    /// then the uniform block when there is one. The output value is
    /// placed at `result` in the store, reusing the texture already
    /// there when its properties match.
    pub fn encode(
        &mut self,
        runtime: &mut Runtime,
        encoder: &mut CommandEncoder,
        value_store: &mut ValueStore,
        inputs: &Vec<Image>,
        input_buffers: &Vec<Buffer>,
        result: Id,
        values: Vec<i64>,
        output_properties: ImageProperties,
        workgroup_size: u32,
        generate_mips: bool,
    ) -> (out: Image)
        requires
            old(self).wf(),
            old(runtime).next_uuid + 3 <= u64::MAX,
            workgroup_size > 0,
            inputs@.len() + input_buffers@.len() + 2 <= u32::MAX,
        ensures
            final(self).wf(),
            final(self).pipeline == old(self).pipeline,
            final(self).ring_buffer.properties == old(self).ring_buffer.properties,
            final(self).bind_group_manager.layout == old(self).bind_group_manager.layout,
            forall|key: Seq<crate::bind_group::BindGroupEntry>|
                old(self).bind_group_manager.contains_key(key) ==> #[trigger] final(self).bind_group_manager.contains_key(key),
            old(self).bind_group_manager.num_bind_groups() <= final(self).bind_group_manager.num_bind_groups()
                <= old(self).bind_group_manager.num_bind_groups() + 1,
            final(runtime).next_uuid >= old(runtime).next_uuid,
            final(runtime).next_uuid <= old(runtime).next_uuid + 3,
            out.properties == output_properties,
            final(value_store).value_at(result) == Some(Value::Image(out)),
            forall|x: Id|
                x != result ==> final(value_store).value_at(x) == old(value_store).value_at(x),
            (match old(value_store).value_at(result) {
                Some(Value::Image(prev)) => prev.properties == output_properties ==> out == prev,
                _ => true,
            }),
            exists|bg: u64|
                final(encoder).commands@ == if generate_mips {
                    old(encoder).commands@.push(
                        Command::Dispatch {
                            pipeline: old(self).pipeline,
                            bind_group: bg,
                            workgroups: (
                                div_up_spec(output_properties.dimensions.0, workgroup_size),
                                div_up_spec(output_properties.dimensions.1, workgroup_size),
                                1u32,
                            ),
                        },
                    ).push(Command::GenerateMipmaps { image: out.uuid })
                } else {
                    old(encoder).commands@.push(
                        Command::Dispatch {
                            pipeline: old(self).pipeline,
                            bind_group: bg,
                            workgroups: (
                                div_up_spec(output_properties.dimensions.0, workgroup_size),
                                div_up_spec(output_properties.dimensions.1, workgroup_size),
                                1u32,
                            ),
                        },
                    )
                },
            values@.len() > 0 ==> final(runtime).queue.writes@.len() == old(
                runtime,
            ).queue.writes@.len() + 1 && final(runtime).queue.writes@.last().values@ == values@,
            values@.len() == 0 ==> final(runtime).queue.writes@.len() == old(
                runtime,
            ).queue.writes@.len(),
            forall|i: int|
                0 <= i < old(runtime).queue.writes@.len() ==> final(runtime).queue.writes@[i]
                    == old(runtime).queue.writes@[i],
    {
        let out = value_store.ensure_value_at_id_is_image_of_properties(
            runtime,
            result,
            &output_properties,
        );
        let mut entries: Vec<BindGroupEntry> = Vec::new();
        let n = inputs.len();
        let nb = input_buffers.len();
        let mut i: usize = 0;
        while i < n
            invariant
                0 <= i <= n,
                n == inputs@.len(),
                n + nb + 2 <= u32::MAX,
                nb == input_buffers@.len(),
                entries@.len() == i,
            decreases n - i,
        {
            entries.push(
                BindGroupEntry {
                    binding: i as u32,
                    resource: BindingResource::texture(&inputs[i]),
                },
            );
            i = i + 1;
        }
        let mut j: usize = 0;
        while j < nb
            invariant
                0 <= j <= nb,
                n == inputs@.len(),
                n + nb + 2 <= u32::MAX,
                nb == input_buffers@.len(),
                entries@.len() == n + j,
            decreases nb - j,
        {
            entries.push(
                BindGroupEntry {
                    binding: (n + j) as u32,
                    resource: BindingResource::buffer(&input_buffers[j]),
                },
            );
            j = j + 1;
        }
        entries.push(
            BindGroupEntry {
                binding: (n + nb) as u32,
                resource: BindingResource::texture_storage(&out, 0),
            },
        );
        let has_uniform = values.len() > 0;
        if has_uniform {
            let buffer = self.ring_buffer.get(runtime);
            runtime.queue.write_buffer(&buffer, values);
            entries.push(
                BindGroupEntry {
                    binding: (n + nb + 1) as u32,
                    resource: BindingResource::buffer(&buffer),
                },
            );
        }
        let bind_group = self.bind_group_manager.get_or_create(
            runtime,
            BindGroupDescriptor { entries },
        );
        let workgroups_x = div_up(output_properties.dimensions.0, workgroup_size);
        let workgroups_y = div_up(output_properties.dimensions.1, workgroup_size);
        encoder.dispatch(self.pipeline, bind_group, workgroups_x, workgroups_y, 1);
        if generate_mips {
            encoder.commands.push(Command::GenerateMipmaps { image: out.uuid });
        }
        out
    }
}

/// The per-pixel exposure multiply.
pub type AdjustExposureImpl = PointwiseOpImpl;

/// Contrast remap around the mean read from the basic statistics.
pub type AdjustContrastImpl = PointwiseOpImpl;

/// Luma-weighted highlight and shadow recovery; one shader does both.
pub type AdjustHighlightsAndShadowsImpl = PointwiseOpImpl;

/// Chromatic-adaptation white balance; temperature and tint share the
/// shader.
pub type AdjustTemperatureAndTintImpl = PointwiseOpImpl;

/// Saturation boost weighted toward unsaturated pixels.
pub type AdjustVibranceImpl = PointwiseOpImpl;

/// Uniform saturation scale.
pub type AdjustSaturationImpl = PointwiseOpImpl;

/// Per-channel tone curve through the control points.
pub type ApplyCurveImpl = PointwiseOpImpl;

/// Eight-hue color mixer.
pub type ColorMixImpl = PointwiseOpImpl;

/// Dark-channel estimation feeding the dehaze combine pass.
pub type DehazePrepareImpl = PointwiseOpImpl;

/// Combines the haze estimate with the input by the dehaze amount.
pub type ApplyDehazeImpl = PointwiseOpImpl;

/// Radial exposure falloff.
pub type ApplyVignetteImpl = PointwiseOpImpl;

/// Samples the input through the rotated crop window.
pub type RotateAndCropImpl = PointwiseOpImpl;

/// Bilinear resample to the requested size.
pub type ResizeImpl = PointwiseOpImpl;

/// Renders a framed copy of the input.
pub type FramingImpl = PointwiseOpImpl;

/// Constant-one mask covering the whole working resolution.
pub type ComputeGlobalMaskImpl = PointwiseOpImpl;

/// Smoothstep over an ellipse.
pub type ComputeRadialGradientMaskImpl = PointwiseOpImpl;

/// Smoothstep across a line between two endpoints.
pub type ComputeLinearGradientMaskImpl = PointwiseOpImpl;

/// Per-pixel complement of a mask.
pub type InvertMaskImpl = PointwiseOpImpl;

/// Saturating sum of two masks.
pub type AddMaskImpl = PointwiseOpImpl;

/// Saturating difference of two masks.
pub type SubtractMaskImpl = PointwiseOpImpl;

/// Blends the adjusted image over the base by the mask's alpha.
pub type ApplyMaskedEditsImpl = PointwiseOpImpl;

} // verus!
