use salon_core::edit::Edit;
use salon_core::editor::Editor;
use salon_core::editor::EditorState;
use salon_core::ir::Op;
use salon_core::rectangle::Rectangle;
use salon_core::rectangle::Vec2;

fn op_result_id(op: &Op) -> u32 {
    match op {
        Op::Input(o) => o.result,
        Op::AdjustExposure(o) => o.result,
        Op::AdjustContrast(o) => o.result,
        Op::AdjustHighlightsAndShadows(o) => o.result,
        Op::AdjustTemperatureAndTint(o) => o.result,
        Op::AdjustVibrance(o) => o.result,
        Op::AdjustSaturation(o) => o.result,
        Op::ApplyCurve(o) => o.result,
        Op::ColorMix(o) => o.result,
        Op::DehazePrepare(o) => o.result,
        Op::ApplyDehaze(o) => o.result,
        Op::ApplyVignette(o) => o.result,
        Op::RotateAndCrop(o) => o.result,
        Op::Resize(o) => o.result,
        Op::Framing(o) => o.result,
        Op::ComputeBasicStatistics(o) => o.result,
        Op::ComputeHistogram(o) => o.result,
        Op::CollectDataForEditor(o) => o.result,
        Op::CollectStatistics(o) => o.result,
        Op::ComputeGlobalMask(o) => o.result,
        Op::ComputeRadialGradientMask(o) => o.result,
        Op::ComputeLinearGradientMask(o) => o.result,
        Op::InvertMask(o) => o.result,
        Op::AddMask(o) => o.result,
        Op::SubtractMask(o) => o.result,
        Op::ApplyMaskedEdits(o) => o.result,
    }
}

#[test]
fn default_edit_compiles_to_identity_module() {
    let edit = Edit::new();
    let module = edit.to_ir_module();
    assert_eq!(module.output_id, module.input_id);
    assert_eq!(module.ops.len(), 4);
    assert!(matches!(module.ops[0], Op::Input(_)));
    assert!(matches!(module.ops[1], Op::ComputeGlobalMask(_)));
    assert!(matches!(module.ops[2], Op::ComputeHistogram(_)));
    assert!(matches!(module.ops[3], Op::CollectDataForEditor(_)));
}

#[test]
fn zero_parameter_compiles_like_skipped_step() {
    let mut with_zero = Edit::new();
    with_zero.masked_edits[0].edit.exposure = 0;
    let baseline = Edit::new();
    let m1 = with_zero.to_ir_module();
    let m2 = baseline.to_ir_module();
    assert_eq!(m1.ops.len(), m2.ops.len());
    assert_eq!(m1.output_id, m2.output_id);
}

#[test]
fn nonzero_parameter_adds_exactly_its_step() {
    let mut edit = Edit::new();
    edit.masked_edits[0].edit.vibrance = 2500;
    let module = edit.to_ir_module();
    // input + global mask + vibrance + blend + histogram + collect
    assert_eq!(module.ops.len(), 6);
    assert!(matches!(module.ops[2], Op::AdjustVibrance(_)));
    assert!(matches!(module.ops[3], Op::ApplyMaskedEdits(_)));
    assert_ne!(module.output_id, module.input_id);
}

#[test]
fn compiled_module_result_ids_are_unique() {
    let mut edit = Edit::new();
    {
        let g = &mut edit.masked_edits[0].edit;
        g.exposure = 10000;
        g.contrast = 5000;
        g.highlights = -2000;
        g.shadows = 1000;
        g.temperature = 300;
        g.tint = -300;
        g.vibrance = 2000;
        g.saturation = -1000;
        g.dehaze = 1500;
        g.vignette = -2500;
    }
    edit.rotation_degrees = 450000;
    let module = edit.to_ir_module();
    let mut seen = Vec::new();
    for op in &module.ops {
        let id = op_result_id(op);
        assert!(!seen.contains(&id), "id {} defined twice", id);
        seen.push(id);
    }
}

#[test]
fn contrast_emits_statistics_feeding_the_contrast_op() {
    let mut edit = Edit::new();
    edit.masked_edits[0].edit.contrast = 5000;
    let module = edit.to_ir_module();
    let mut found = false;
    for i in 0..module.ops.len() {
        if let Op::AdjustContrast(c) = &module.ops[i] {
            assert!(i > 0);
            if let Op::ComputeBasicStatistics(s) = &module.ops[i - 1] {
                assert_eq!(s.result, c.basic_stats);
                assert_eq!(s.arg, c.arg);
                assert_eq!(c.contrast, 5000);
                found = true;
            } else {
                panic!("contrast is not preceded by its statistics op");
            }
        }
    }
    assert!(found);
}

#[test]
fn identity_crop_is_skipped() {
    let mut edit = Edit::new();
    edit.crop = Some(Rectangle {
        center: Vec2 { x: 5000, y: 5000 },
        size: Vec2 { x: 10000, y: 10000 },
    });
    edit.rotation_degrees = 0;
    let module = edit.to_ir_module();
    assert_eq!(module.output_id, module.input_id);
    for op in &module.ops {
        assert!(!matches!(op, Op::RotateAndCrop(_)));
    }
}

#[test]
fn rotation_emits_the_crop_op() {
    let mut edit = Edit::new();
    edit.rotation_degrees = 450000;
    let module = edit.to_ir_module();
    assert!(matches!(module.ops[1], Op::RotateAndCrop(_)));
    if let Op::RotateAndCrop(o) = &module.ops[1] {
        assert_eq!(o.rotation_degrees, 450000);
    }
}

#[test]
fn default_editor_state_compiles_to_identity_module() {
    let editor = Editor::new();
    let module = editor.current_state.to_ir_module();
    assert_eq!(module.output_id, module.input_id);
}

#[test]
fn editor_state_exposure_reaches_the_module() {
    let mut state = EditorState::new();
    state.exposure_val = 10000;
    let module = state.to_ir_module();
    let mut found = false;
    for op in &module.ops {
        if let Op::AdjustExposure(o) = op {
            assert_eq!(o.exposure, 10000);
            found = true;
        }
    }
    assert!(found);
    assert_ne!(module.output_id, module.input_id);
}

#[test]
fn editor_reset_restores_defaults() {
    let mut editor = Editor::new();
    editor.current_state.saturation_val = 77;
    editor.reset_state();
    assert_eq!(editor.current_state.saturation_val, 0);
}

#[test]
fn serialized_editor_state_parses_back_unchanged() {
    let mut state = EditorState::new();
    state.exposure_val = 12345;
    state.contrast_val = -5000;
    state.vibrance_val = 777;
    state.curve_control_points = vec![(0, 0), (2500, 4000), (10000, 10000)];
    let data = salon_core::codec::serialize_editor_state(&state);
    let parsed = salon_core::codec::parse_editor_state(&data).expect("a written record parses");
    assert_eq!(parsed.exposure_val, 12345);
    assert_eq!(parsed.contrast_val, -5000);
    assert_eq!(parsed.vibrance_val, 777);
    assert_eq!(parsed.curve_control_points, vec![(0, 0), (2500, 4000), (10000, 10000)]);
    assert_eq!(parsed.saturation_val, 0);
}

#[test]
fn truncated_state_records_are_rejected() {
    assert!(salon_core::codec::parse_editor_state(&vec![1, 2, 3]).is_none());
    // a record claiming three points but carrying one
    let bad = vec![0, 0, 0, 0, 0, 0, 0, 0, 3, 5, 5];
    assert!(salon_core::codec::parse_editor_state(&bad).is_none());
}

#[test]
fn default_editor_state_module_is_exactly_the_statistics_tail() {
    let module = EditorState::new().to_ir_module();
    assert_eq!(module.ops.len(), 3);
    assert!(matches!(module.ops[0], Op::Input(_)));
    match &module.ops[1] {
        Op::ComputeHistogram(h) => {
            assert_eq!(h.result, 1);
            assert_eq!(h.arg, 0);
        },
        _ => panic!("the histogram must follow the input"),
    }
    match &module.ops[2] {
        Op::CollectDataForEditor(c) => {
            assert_eq!(c.result, 2);
            assert_eq!(c.histogram_final, 1);
        },
        _ => panic!("the collect op must close the module"),
    }
}

#[test]
fn adjustments_are_emitted_in_the_fixed_order() {
    let mut edit = Edit::new();
    {
        let g = &mut edit.masked_edits[0].edit;
        g.exposure = 10000;
        g.saturation = -2000;
        g.vignette = 1500;
    }
    let module = edit.to_ir_module();
    // input, global mask, exposure, saturation, vignette, blend,
    // histogram, collect
    assert_eq!(module.ops.len(), 8);
    assert!(matches!(module.ops[2], Op::AdjustExposure(_)));
    assert!(matches!(module.ops[3], Op::AdjustSaturation(_)));
    assert!(matches!(module.ops[4], Op::ApplyVignette(_)));
    assert!(matches!(module.ops[5], Op::ApplyMaskedEdits(_)));
}

#[test]
fn crop_mask_and_adjustments_compile_back_to_back() {
    let mut edit = Edit::new();
    edit.rotation_degrees = 300000;
    edit.masked_edits[0].edit.exposure = 10000;
    let module = edit.to_ir_module();
    // input, crop, global mask, exposure, blend, histogram, collect
    assert_eq!(module.ops.len(), 7);
    assert!(matches!(module.ops[0], Op::Input(_)));
    assert!(matches!(module.ops[1], Op::RotateAndCrop(_)));
    assert!(matches!(module.ops[2], Op::ComputeGlobalMask(_)));
    match &module.ops[3] {
        Op::AdjustExposure(o) => {
            assert_eq!(o.arg, 1);
            assert_eq!(o.result, 3);
            assert_eq!(o.exposure, 10000);
        },
        _ => panic!("the exposure step must follow the mask"),
    }
    match &module.ops[4] {
        Op::ApplyMaskedEdits(o) => {
            assert_eq!(o.base, 1);
            assert_eq!(o.adjusted, 3);
            assert_eq!(o.mask, 2);
        },
        _ => panic!("the blend must close the masked edit"),
    }
    assert_eq!(module.output_id, 4);
}
