use vstd::prelude::*;
use crate::ops::basic_statistics::ComputeBasicStatisticsImpl;
use crate::ops::basic_statistics::ComputeHistogramImpl;
use crate::ops::collect_statistics::CollectDataForEditorImpl;
use crate::ops::collect_statistics::CollectStatisticsImpl;
use crate::ops::pointwise::AddMaskImpl;
use crate::ops::pointwise::AdjustContrastImpl;
use crate::ops::pointwise::AdjustExposureImpl;
use crate::ops::pointwise::AdjustHighlightsAndShadowsImpl;
use crate::ops::pointwise::AdjustSaturationImpl;
use crate::ops::pointwise::AdjustTemperatureAndTintImpl;
use crate::ops::pointwise::AdjustVibranceImpl;
use crate::ops::pointwise::ApplyCurveImpl;
use crate::ops::pointwise::ApplyDehazeImpl;
use crate::ops::pointwise::ApplyMaskedEditsImpl;
use crate::ops::pointwise::ApplyVignetteImpl;
use crate::ops::pointwise::ColorMixImpl;
use crate::ops::pointwise::ComputeGlobalMaskImpl;
use crate::ops::pointwise::ComputeLinearGradientMaskImpl;
use crate::ops::pointwise::ComputeRadialGradientMaskImpl;
use crate::ops::pointwise::DehazePrepareImpl;
use crate::ops::pointwise::FramingImpl;
use crate::ops::pointwise::InvertMaskImpl;
use crate::ops::pointwise::PointwiseOpImpl;
use crate::ops::pointwise::ResizeImpl;
use crate::ops::pointwise::RotateAndCropImpl;
use crate::ops::pointwise::SubtractMaskImpl;
use crate::runtime::Runtime;

verus! {

/// One implementation per op kind, each owning its pipelines, bind
/// group cache and uniform ring buffer.
pub struct OpImplCollection {
    pub exposure: AdjustExposureImpl,
    pub contrast: AdjustContrastImpl,
    pub highlights_shadows: AdjustHighlightsAndShadowsImpl,
    pub temperature_tint: AdjustTemperatureAndTintImpl,
    pub vibrance: AdjustVibranceImpl,
    pub saturation: AdjustSaturationImpl,
    pub curve: ApplyCurveImpl,
    pub color_mix: ColorMixImpl,
    pub dehaze_prepare: DehazePrepareImpl,
    pub dehaze_apply: ApplyDehazeImpl,
    pub vignette: ApplyVignetteImpl,
    pub rotate_and_crop: RotateAndCropImpl,
    pub resize: ResizeImpl,
    pub framing: FramingImpl,
    pub global_mask: ComputeGlobalMaskImpl,
    pub radial_gradient_mask: ComputeRadialGradientMaskImpl,
    pub linear_gradient_mask: ComputeLinearGradientMaskImpl,
    pub invert_mask: InvertMaskImpl,
    pub add_mask: AddMaskImpl,
    pub subtract_mask: SubtractMaskImpl,
    pub apply_masked_edits: ApplyMaskedEditsImpl,
    pub basic_statistics: ComputeBasicStatisticsImpl,
    pub histogram: ComputeHistogramImpl,
    pub collect_statistics: CollectStatisticsImpl,
    pub collect_data_for_editor: CollectDataForEditorImpl,
}

impl OpImplCollection {
    /// Every uniform ring buffer is consistent.
    pub open spec fn wf(&self) -> bool {
        &&& self.exposure.wf()
        &&& self.contrast.wf()
        &&& self.highlights_shadows.wf()
        &&& self.temperature_tint.wf()
        &&& self.vibrance.wf()
        &&& self.saturation.wf()
        &&& self.curve.wf()
        &&& self.color_mix.wf()
        &&& self.dehaze_prepare.wf()
        &&& self.dehaze_apply.wf()
        &&& self.vignette.wf()
        &&& self.rotate_and_crop.wf()
        &&& self.resize.wf()
        &&& self.framing.wf()
        &&& self.global_mask.wf()
        &&& self.radial_gradient_mask.wf()
        &&& self.linear_gradient_mask.wf()
        &&& self.invert_mask.wf()
        &&& self.add_mask.wf()
        &&& self.subtract_mask.wf()
        &&& self.apply_masked_edits.wf()
    }

    pub fn new(runtime: &mut Runtime) -> (r: Self)
        requires
            old(runtime).next_uuid + 64 <= u64::MAX,
        ensures
            r.wf(),
            final(runtime).next_uuid <= old(runtime).next_uuid + 64,
            final(runtime).next_uuid >= old(runtime).next_uuid,
            final(runtime).queue.writes == old(runtime).queue.writes,
    {
        let r = OpImplCollection {
            exposure: PointwiseOpImpl::new(runtime, 8),
            contrast: PointwiseOpImpl::new(runtime, 8),
            highlights_shadows: PointwiseOpImpl::new(runtime, 16),
            temperature_tint: PointwiseOpImpl::new(runtime, 16),
            vibrance: PointwiseOpImpl::new(runtime, 8),
            saturation: PointwiseOpImpl::new(runtime, 8),
            curve: PointwiseOpImpl::new(runtime, 256),
            color_mix: PointwiseOpImpl::new(runtime, 192),
            dehaze_prepare: PointwiseOpImpl::new(runtime, 8),
            dehaze_apply: PointwiseOpImpl::new(runtime, 8),
            vignette: PointwiseOpImpl::new(runtime, 8),
            rotate_and_crop: PointwiseOpImpl::new(runtime, 40),
            resize: PointwiseOpImpl::new(runtime, 16),
            framing: PointwiseOpImpl::new(runtime, 16),
            global_mask: PointwiseOpImpl::new(runtime, 8),
            radial_gradient_mask: PointwiseOpImpl::new(runtime, 48),
            linear_gradient_mask: PointwiseOpImpl::new(runtime, 32),
            invert_mask: PointwiseOpImpl::new(runtime, 8),
            add_mask: PointwiseOpImpl::new(runtime, 8),
            subtract_mask: PointwiseOpImpl::new(runtime, 8),
            apply_masked_edits: PointwiseOpImpl::new(runtime, 8),
            basic_statistics: ComputeBasicStatisticsImpl::new(runtime),
            histogram: ComputeHistogramImpl::new(runtime),
            collect_statistics: CollectStatisticsImpl::new(),
            collect_data_for_editor: CollectDataForEditorImpl::new(),
        };
        r
    }

    /// Frees every ring buffer slot; called before each execution.
    pub fn reset(&mut self)
        ensures
            old(self).wf() ==> final(self).wf(),
    {
        self.exposure.reset();
        self.contrast.reset();
        self.highlights_shadows.reset();
        self.temperature_tint.reset();
        self.vibrance.reset();
        self.saturation.reset();
        self.curve.reset();
        self.color_mix.reset();
        self.dehaze_prepare.reset();
        self.dehaze_apply.reset();
        self.vignette.reset();
        self.rotate_and_crop.reset();
        self.resize.reset();
        self.framing.reset();
        self.global_mask.reset();
        self.radial_gradient_mask.reset();
        self.linear_gradient_mask.reset();
        self.invert_mask.reset();
        self.add_mask.reset();
        self.subtract_mask.reset();
        self.apply_masked_edits.reset();
        self.basic_statistics.reset();
        self.histogram.reset();
        self.collect_statistics.reset();
        self.collect_data_for_editor.reset();
    }

    /// How many bind groups all the caches hold together; an execution
    /// that re-binds only known content leaves this unchanged.
    pub fn num_bind_groups(&self) -> (r: u128)
        ensures
            r == self.spec_num_bind_groups(),
    {
        self.exposure.bind_group_manager.num_cached() as u128
            + self.contrast.bind_group_manager.num_cached() as u128
            + self.highlights_shadows.bind_group_manager.num_cached() as u128
            + self.temperature_tint.bind_group_manager.num_cached() as u128
            + self.vibrance.bind_group_manager.num_cached() as u128
            + self.saturation.bind_group_manager.num_cached() as u128
            + self.curve.bind_group_manager.num_cached() as u128
            + self.color_mix.bind_group_manager.num_cached() as u128
            + self.dehaze_prepare.bind_group_manager.num_cached() as u128
            + self.dehaze_apply.bind_group_manager.num_cached() as u128
            + self.vignette.bind_group_manager.num_cached() as u128
            + self.rotate_and_crop.bind_group_manager.num_cached() as u128
            + self.resize.bind_group_manager.num_cached() as u128
            + self.framing.bind_group_manager.num_cached() as u128
            + self.global_mask.bind_group_manager.num_cached() as u128
            + self.radial_gradient_mask.bind_group_manager.num_cached() as u128
            + self.linear_gradient_mask.bind_group_manager.num_cached() as u128
            + self.invert_mask.bind_group_manager.num_cached() as u128
            + self.add_mask.bind_group_manager.num_cached() as u128
            + self.subtract_mask.bind_group_manager.num_cached() as u128
            + self.apply_masked_edits.bind_group_manager.num_cached() as u128
            + self.basic_statistics.bind_group_manager_clear.num_cached() as u128
            + self.basic_statistics.bind_group_manager_compute.num_cached() as u128
            + self.histogram.bind_group_manager_clear.num_cached() as u128
            + self.histogram.bind_group_manager_compute.num_cached() as u128
    }

    pub open spec fn spec_num_bind_groups(&self) -> nat {
        self.exposure.bind_group_manager.num_bind_groups()
            + self.contrast.bind_group_manager.num_bind_groups()
            + self.highlights_shadows.bind_group_manager.num_bind_groups()
            + self.temperature_tint.bind_group_manager.num_bind_groups()
            + self.vibrance.bind_group_manager.num_bind_groups()
            + self.saturation.bind_group_manager.num_bind_groups()
            + self.curve.bind_group_manager.num_bind_groups()
            + self.color_mix.bind_group_manager.num_bind_groups()
            + self.dehaze_prepare.bind_group_manager.num_bind_groups()
            + self.dehaze_apply.bind_group_manager.num_bind_groups()
            + self.vignette.bind_group_manager.num_bind_groups()
            + self.rotate_and_crop.bind_group_manager.num_bind_groups()
            + self.resize.bind_group_manager.num_bind_groups()
            + self.framing.bind_group_manager.num_bind_groups()
            + self.global_mask.bind_group_manager.num_bind_groups()
            + self.radial_gradient_mask.bind_group_manager.num_bind_groups()
            + self.linear_gradient_mask.bind_group_manager.num_bind_groups()
            + self.invert_mask.bind_group_manager.num_bind_groups()
            + self.add_mask.bind_group_manager.num_bind_groups()
            + self.subtract_mask.bind_group_manager.num_bind_groups()
            + self.apply_masked_edits.bind_group_manager.num_bind_groups()
            + self.basic_statistics.bind_group_manager_clear.num_bind_groups()
            + self.basic_statistics.bind_group_manager_compute.num_bind_groups()
            + self.histogram.bind_group_manager_clear.num_bind_groups()
            + self.histogram.bind_group_manager_compute.num_bind_groups()
    }
}

} // verus!
