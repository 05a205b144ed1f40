use salon_core::edit::Edit;
use salon_core::engine::Engine;
use salon_core::ir::AdjustExposureOp;
use salon_core::ir::ComputeHistogramOp;
use salon_core::ir::InputOp;
use salon_core::ir::Module;
use salon_core::ir::Op;
use salon_core::runtime::ColorSpace;
use salon_core::runtime::Command;
use salon_core::runtime::ImageFormat;
use salon_core::runtime::ImageProperties;
use salon_core::runtime::Runtime;
use salon_core::value_store::Value;

fn test_image(runtime: &mut Runtime, w: u32, h: u32) -> salon_core::runtime::Image {
    runtime.create_image_of_properties(ImageProperties {
        dimensions: (w, h),
        format: ImageFormat::Rgba16Float,
        color_space: ColorSpace::LinearRGB,
    })
}

#[test]
fn default_module_executes_and_passes_the_input_through() {
    let mut runtime = Runtime::new();
    let input = test_image(&mut runtime, 64, 48);
    let mut engine = Engine::new(runtime);
    let module = Edit::new().to_ir_module();
    let result = engine.execute(&module, input).expect("a compiled module must execute");
    assert_eq!(result.final_image.uuid, input.uuid);
    assert_eq!(result.final_image.properties.dimensions, (64, 48));
}

#[test]
fn full_edit_executes_with_expected_dispatches() {
    let mut runtime = Runtime::new();
    let input = test_image(&mut runtime, 100, 60);
    let mut engine = Engine::new(runtime);
    let mut edit = Edit::new();
    edit.masked_edits[0].edit.exposure = 10000;
    edit.masked_edits[0].edit.contrast = 5000;
    let module = edit.to_ir_module();
    let result = engine.execute(&module, input).expect("a compiled module must execute");
    assert_ne!(result.final_image.uuid, input.uuid);
    // the exposure dispatch covers the image in 8 by 8 workgroups
    let has_13x8 = result.encoder.commands.iter().any(|c| match c {
        Command::Dispatch { workgroups, .. } => *workgroups == (13, 8, 1),
        _ => false,
    });
    assert!(has_13x8, "expected a ceil(100/8) by ceil(60/8) dispatch");
    // the histogram copy for the editor is in the submission
    let has_copy = result.encoder.commands.iter().any(|c| matches!(c, Command::CopyBufferToBuffer { .. }));
    assert!(has_copy);
}

#[test]
fn second_execution_creates_no_new_bind_groups() {
    let mut runtime = Runtime::new();
    let input = test_image(&mut runtime, 32, 32);
    let mut engine = Engine::new(runtime);
    let mut edit = Edit::new();
    edit.masked_edits[0].edit.exposure = 5000;
    edit.masked_edits[0].edit.vibrance = -2000;
    let module = edit.to_ir_module();
    engine.execute(&module, input).expect("first run");
    let after_first = engine.num_bind_groups();
    assert!(after_first > 0);
    engine.execute(&module, input).expect("second run");
    let after_second = engine.num_bind_groups();
    assert_eq!(after_first, after_second);
}

#[test]
fn kind_mismatch_is_an_invalid_module_error() {
    let mut runtime = Runtime::new();
    let input = test_image(&mut runtime, 8, 8);
    let mut engine = Engine::new(runtime);
    // well formed, but the exposure op reads the histogram buffer
    let module = Module {
        ops: vec![
            Op::Input(InputOp { result: 0 }),
            Op::ComputeHistogram(ComputeHistogramOp { result: 1, arg: 0 }),
            Op::AdjustExposure(AdjustExposureOp { result: 2, arg: 1, exposure: 100 }),
        ],
        next_id: 3,
        input_id: 0,
        output_id: 2,
    };
    let result = engine.execute(&module, input);
    assert!(result.is_err());
}

#[test]
fn value_store_reuses_matching_textures() {
    let mut runtime = Runtime::new();
    let mut store = salon_core::value_store::ValueStore::new();
    let props = ImageProperties {
        dimensions: (16, 16),
        format: ImageFormat::Rgba8Unorm,
        color_space: ColorSpace::SrgbNonLinear,
    };
    let first = store.ensure_value_at_id_is_image_of_properties(&mut runtime, 7, &props);
    let second = store.ensure_value_at_id_is_image_of_properties(&mut runtime, 7, &props);
    assert_eq!(first.uuid, second.uuid);
    let other = ImageProperties { dimensions: (8, 8), ..props };
    let third = store.ensure_value_at_id_is_image_of_properties(&mut runtime, 7, &other);
    assert_ne!(first.uuid, third.uuid);
    match store.get(7) {
        Some(Value::Image(img)) => assert_eq!(img.properties.dimensions, (8, 8)),
        _ => panic!("expected an image at the id"),
    }
}

#[test]
fn ring_buffer_hands_out_distinct_buffers_within_a_round() {
    let mut runtime = Runtime::new();
    let mut ring = salon_core::ring_buffer::RingBuffer::new(
        salon_core::runtime::BufferProperties { size: 16, host_readable: false },
    );
    let a = ring.get(&mut runtime);
    let b = ring.get(&mut runtime);
    let c = ring.get(&mut runtime);
    assert_ne!(a.uuid, b.uuid);
    assert_ne!(b.uuid, c.uuid);
    assert_ne!(a.uuid, c.uuid);
    ring.mark_all_available();
    let a2 = ring.get(&mut runtime);
    assert_eq!(a2.uuid, a.uuid);
}

#[test]
fn mip_levels_follow_the_longer_edge() {
    assert_eq!(salon_core::runtime::compute_mip_levels(1), 1);
    assert_eq!(salon_core::runtime::compute_mip_levels(2), 2);
    assert_eq!(salon_core::runtime::compute_mip_levels(800), 10);
    let mut runtime = Runtime::new();
    let img = test_image(&mut runtime, 800, 600);
    assert_eq!(img.mip_level_count, 10);
}

#[test]
fn div_up_rounds_up() {
    assert_eq!(salon_core::math::div_up(100, 8), 13);
    assert_eq!(salon_core::math::div_up(96, 8), 12);
    assert_eq!(salon_core::math::div_up(0, 8), 0);
    assert_eq!(salon_core::math::div_up(1, 16), 1);
}

#[test]
fn brightness_adjust_encodes_one_workgroup_per_texel() {
    let mut runtime = Runtime::new();
    let input = test_image(&mut runtime, 12, 7);
    let mut store = salon_core::value_store::ValueStore::new();
    store.insert(0, Value::Image(input));
    let mut brightness = salon_core::ops::brightness::BrightnessAdjustImpl::new(&mut runtime);
    let op = salon_core::ir::BrightnessAdjust { result: 1, arg: 0, brightness: 2500 };
    let encoder = brightness
        .apply(&mut runtime, &op, &mut store)
        .expect("an image input must encode");
    assert_eq!(encoder.commands.len(), 2);
    assert!(matches!(
        encoder.commands[0],
        Command::Dispatch { workgroups: (12, 7, 1), .. }
    ));
    assert!(matches!(encoder.commands[1], Command::GenerateMipmaps { .. }));
    // the op writes its result into the store
    assert!(matches!(store.get(1), Some(Value::Image(_))));
    // a missing argument is an invalid module
    let bad = salon_core::ir::BrightnessAdjust { result: 3, arg: 99, brightness: 0 };
    assert!(brightness.apply(&mut runtime, &bad, &mut store).is_err());
}
