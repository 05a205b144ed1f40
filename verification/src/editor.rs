use vstd::prelude::*;
use crate::compiler::adjust_cur_upto;
use crate::compiler::adjust_len_upto;
use crate::compiler::adjust_next_upto;
use crate::compiler::adjust_ops_ok;
use crate::compiler::adjust_step_skipped;
use crate::edit::curve_points_identity;
use crate::edit::curve_points_wf;
use crate::edit::GlobalEdit;
use crate::ir::CollectDataForEditorOp;
use crate::ir::ComputeHistogramOp;
use crate::ir::InputOp;
use crate::ir::Module;
use crate::ir::Op;
use crate::ir::ValueKind;

verus! {

/// The live editing session state of the reduced pipeline: the global
/// scalar adjustments and one luma curve, without masks or crop.
#[derive(Clone)]
pub struct EditorState {
    pub exposure_val: i64,
    pub contrast_val: i64,
    pub highlights_val: i64,
    pub shadows_val: i64,
    pub temperature_val: i64,
    pub tint_val: i64,
    pub vibrance_val: i64,
    pub saturation_val: i64,
    pub curve_control_points: Vec<(i64, i64)>,
}

impl EditorState {
    pub open spec fn wf(&self) -> bool {
        curve_points_wf(self.curve_control_points@)
    }

    /// No adjustment differs from its default.
    pub open spec fn is_identity(&self) -> bool {
        &&& self.exposure_val == 0
        &&& self.contrast_val == 0
        &&& self.highlights_val == 0
        &&& self.shadows_val == 0
        &&& self.temperature_val == 0
        &&& self.tint_val == 0
        &&& self.vibrance_val == 0
        &&& self.saturation_val == 0
        &&& curve_points_identity(self.curve_control_points@)
    }

    pub fn initial_control_points() -> (r: Vec<(i64, i64)>)
        ensures
            curve_points_identity(r@),
            curve_points_wf(r@),
    {
        GlobalEdit::initial_control_points()
    }

    pub fn new() -> (r: Self)
        ensures
            r.wf(),
            r.is_identity(),
    {
        EditorState {
            exposure_val: 0,
            contrast_val: 0,
            highlights_val: 0,
            shadows_val: 0,
            temperature_val: 0,
            tint_val: 0,
            vibrance_val: 0,
            saturation_val: 0,
            curve_control_points: EditorState::initial_control_points(),
        }
    }

    /// The state seen as the equivalent global edit: the one curve is
    /// the luma curve, everything the state does not carry stays at
    /// its default.
    #[verifier::rlimit(50)]
    pub fn as_global_edit(&self) -> (r: GlobalEdit)
        requires
            self.wf(),
        ensures
            r.wf(),
            r.exposure == self.exposure_val,
            r.contrast == self.contrast_val,
            r.highlights == self.highlights_val,
            r.shadows == self.shadows_val,
            r.temperature == self.temperature_val,
            r.tint == self.tint_val,
            r.vibrance == self.vibrance_val,
            r.saturation == self.saturation_val,
            r.curve_control_points_all@ == self.curve_control_points@,
            curve_points_identity(r.curve_control_points_r@),
            curve_points_identity(r.curve_control_points_g@),
            curve_points_identity(r.curve_control_points_b@),
            forall|i: int| 0 <= i < 8 ==> (#[trigger] r.color_mixer_edits@[i]).is_identity(),
            r.dehaze == 0,
            r.vignette == 0,
            self.is_identity() ==> r.is_identity(),
    {
        let mut g = GlobalEdit::new();
        g.exposure = self.exposure_val;
        g.contrast = self.contrast_val;
        g.highlights = self.highlights_val;
        g.shadows = self.shadows_val;
        g.temperature = self.temperature_val;
        g.tint = self.tint_val;
        g.vibrance = self.vibrance_val;
        g.saturation = self.saturation_val;
        let mut pts: Vec<(i64, i64)> = Vec::new();
        let mut i: usize = 0;
        while i < self.curve_control_points.len()
            invariant
                0 <= i <= self.curve_control_points@.len(),
                pts@ == self.curve_control_points@.take(i as int),
            decreases self.curve_control_points@.len() - i,
        {
            pts.push(self.curve_control_points[i]);
            proof {
                assert(pts@ =~= self.curve_control_points@.take(i + 1));
            }
            i = i + 1;
        }
        proof {
            assert(self.curve_control_points@.take(self.curve_control_points@.len() as int)
                =~= self.curve_control_points@);
        }
        g.curve_control_points_all = pts;
        g
    }

    /// Lowers the state to a module: the input op, the adjustment
    /// subgraph in the fixed order, then the histogram chain. A state
    /// with every adjustment at its default compiles to a module whose
    /// output is its input.
    #[verifier::rlimit(100)]
    #[verifier::spinoff_prover]
    pub fn to_ir_module(&self) -> (m: Module)
        requires
            self.wf(),
        ensures
            m.wf(),
            m.well_typed(),
            m.is_defined(m.output_id),
            m.is_defined(m.input_id),
            m.defines_kind(m.output_id, ValueKind::ImageKind),
            m.input_id == 0,
            m.ops@.len() >= 3,
            m.ops@[0] == Op::Input(InputOp { result: 0u32 }),
            m.ops@[m.ops@.len() - 2] == Op::ComputeHistogram(
                ComputeHistogramOp { result: (m.next_id - 2) as u32, arg: m.output_id },
            ),
            m.ops@[m.ops@.len() - 1] == Op::CollectDataForEditor(
                CollectDataForEditorOp {
                    result: (m.next_id - 1) as u32,
                    histogram_final: (m.next_id - 2) as u32,
                },
            ),
            exists|g: GlobalEdit|
                {
                    &&& #[trigger] adjust_ops_ok(g, 0u32, 1u32, m.ops@, 1, 13)
                    &&& g.exposure == self.exposure_val
                    &&& g.contrast == self.contrast_val
                    &&& g.highlights == self.highlights_val
                    &&& g.shadows == self.shadows_val
                    &&& g.temperature == self.temperature_val
                    &&& g.tint == self.tint_val
                    &&& g.vibrance == self.vibrance_val
                    &&& g.saturation == self.saturation_val
                    &&& g.curve_control_points_all@ == self.curve_control_points@
                    &&& adjust_step_skipped(g, 7) && adjust_step_skipped(g, 8)
                        && adjust_step_skipped(g, 9) && adjust_step_skipped(g, 10)
                    &&& g.dehaze == 0 && g.vignette == 0
                    &&& m.ops@.len() == 3 + adjust_len_upto(g, 13)
                    &&& m.output_id == adjust_cur_upto(g, 0u32, 1u32, 13)
                    &&& m.next_id == (adjust_next_upto(g, 1u32, 13) + 2) as u32
                },
            self.is_identity() ==> m.output_id == m.input_id && m.ops@ =~= seq![
                Op::Input(InputOp { result: 0u32 }),
                Op::ComputeHistogram(ComputeHistogramOp { result: 1u32, arg: 0u32 }),
                Op::CollectDataForEditor(
                    CollectDataForEditorOp { result: 2u32, histogram_final: 1u32 },
                ),
            ],
    {
        let mut module = Module::new_trivial();
        let current = module.get_output_id();
        let global_edit = self.as_global_edit();
        let ghost g = global_edit;
        let adjusted = global_edit.add_adjustments_to_module(&mut module, current);
        if adjusted != current {
            module.set_output_id(adjusted);
        }
        let ghost pre_stats_ops = module.ops@;
        module.add_statistics_ops();
        proof {
            crate::compiler::lemma_adjust_len_bounds(g, 13);
            crate::compiler::lemma_adjust_ok_extend(
                g,
                0u32,
                1u32,
                pre_stats_ops,
                module.ops@,
                1,
                13,
            );
            assert(adjust_ops_ok(g, 0u32, 1u32, module.ops@, 1, 13));
            assert(adjust_step_skipped(g, 7));
            assert(adjust_step_skipped(g, 8));
            assert(adjust_step_skipped(g, 9));
            assert(adjust_step_skipped(g, 10));
            if self.is_identity() {
                assert(g.is_identity());
            }
        }
        module
    }
}

/// Owns the current editing state.
pub struct Editor {
    pub current_state: EditorState,
}

impl Editor {
    pub fn new() -> (r: Self)
        ensures
            r.current_state.wf(),
            r.current_state.is_identity(),
    {
        Editor { current_state: EditorState::new() }
    }

    pub fn reset_state(&mut self)
        ensures
            final(self).current_state.wf(),
            final(self).current_state.is_identity(),
    {
        self.current_state = EditorState::new();
    }
}

} // verus!
