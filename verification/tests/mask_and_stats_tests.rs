use salon_core::ir::LinearGradientMask;
use salon_core::ir::Mask;
use salon_core::ir::MaskPrimitive;
use salon_core::ir::MaskTerm;
use salon_core::ir::RadialGradientMask;
use salon_core::mask_math::add_mask_values;
use salon_core::mask_math::invert_mask_value;
use salon_core::mask_math::linear_gradient_mask_value;
use salon_core::mask_math::mask_value_at;
use salon_core::mask_math::radial_gradient_mask_value;
use salon_core::mask_math::subtract_mask_values;
use salon_core::mask_math::MASK_ONE;
use salon_core::stats::apply_exposure_stops;
use salon_core::stats::compute_basic_statistics;
use salon_core::stats::compute_histogram;
use salon_core::stats::histogram_plot_cap;

#[test]
fn invert_twice_reproduces_the_sample() {
    for v in [0i64, 1, 2500, 5000, 9999, 10000] {
        assert_eq!(invert_mask_value(invert_mask_value(v)), v);
    }
}

#[test]
fn add_and_subtract_clamp_to_the_unit_range() {
    assert_eq!(add_mask_values(8000, 8000), MASK_ONE);
    assert_eq!(add_mask_values(2000, 3000), 5000);
    assert_eq!(subtract_mask_values(2000, 5000), 0);
    assert_eq!(subtract_mask_values(5000, 2000), 3000);
}

#[test]
fn radial_mask_covers_the_expected_area() {
    // a sharp circle of radius a quarter of the image: the opaque
    // pixel count approximates the circle's area
    let mask = RadialGradientMask {
        center_x: 5000,
        center_y: 5000,
        radius_x: 2500,
        radius_y: 2500,
        feather: 0,
        rotation: 0,
    };
    let mut covered: i64 = 0;
    for px in 0..100i64 {
        for py in 0..100i64 {
            let x = px * 100 + 50;
            let y = py * 100 + 50;
            let v = radial_gradient_mask_value(&mask, x, y);
            assert!(0 <= v && v <= MASK_ONE);
            if v == MASK_ONE {
                covered += 1;
            }
        }
    }
    let expected = std::f64::consts::PI * 25.0 * 25.0;
    let diff = (covered as f64 - expected).abs();
    assert!(diff <= expected * 0.01, "covered {} vs expected {}", covered, expected);
}

#[test]
fn subtracted_corner_masks_compose_within_range() {
    let near = MaskTerm {
        primitive: MaskPrimitive::RadialGradient(RadialGradientMask {
            center_x: 0,
            center_y: 0,
            radius_x: 5000,
            radius_y: 5000,
            feather: 0,
            rotation: 0,
        }),
        inverted: false,
        subtracted: false,
    };
    let far = MaskTerm {
        primitive: MaskPrimitive::RadialGradient(RadialGradientMask {
            center_x: 10000,
            center_y: 10000,
            radius_x: 5000,
            radius_y: 5000,
            feather: 0,
            rotation: 0,
        }),
        inverted: false,
        subtracted: true,
    };
    let mask = Mask { terms: vec![near, far] };
    assert_eq!(mask_value_at(&mask, 0, 0), MASK_ONE);
    assert_eq!(mask_value_at(&mask, 10000, 10000), 0);
    for x in [0i64, 2500, 5000, 7500, 10000] {
        for y in [0i64, 2500, 5000, 7500, 10000] {
            let v = mask_value_at(&mask, x, y);
            assert!(0 <= v && v <= MASK_ONE);
        }
    }
}

#[test]
fn linear_gradient_ramps_between_its_endpoints() {
    let mask = LinearGradientMask { begin_x: 0, begin_y: 0, end_x: 10000, end_y: 0 };
    assert_eq!(linear_gradient_mask_value(&mask, 0, 3000), 0);
    assert_eq!(linear_gradient_mask_value(&mask, 5000, 3000), 5000);
    assert_eq!(linear_gradient_mask_value(&mask, 10000, 3000), MASK_ONE);
    assert_eq!(linear_gradient_mask_value(&mask, -5000, 3000), 0);
    assert_eq!(linear_gradient_mask_value(&mask, 15000, 3000), MASK_ONE);
}

#[test]
fn histogram_bins_sum_to_the_pixel_count() {
    let samples: Vec<u8> = (0..10000u32).map(|i| (i % 251) as u8).collect();
    let bins = compute_histogram(&samples);
    assert_eq!(bins.len(), 256);
    let total: u64 = bins.iter().map(|b| *b as u64).sum();
    assert_eq!(total, samples.len() as u64);
}

#[test]
fn constant_gray_image_statistics() {
    // a 256 by 256 image of the middle gray value
    let n = 256 * 256;
    let samples: Vec<u8> = vec![128u8; n];
    let bins = compute_histogram(&samples);
    assert_eq!(bins[128], 65536);
    for (i, b) in bins.iter().enumerate() {
        if i != 128 {
            assert_eq!(*b, 0);
        }
    }
    let channel: Vec<i64> = vec![5000i64; n];
    let means = compute_basic_statistics(&channel, &channel, &channel);
    assert_eq!(means, (5000, 5000, 5000));
}

#[test]
fn one_stop_of_exposure_doubles_each_channel() {
    // linear pixels (0.1, 0.2, 0.4) pushed one stop become
    // (0.2, 0.4, 0.8)
    assert_eq!(apply_exposure_stops(1000, 1), 2000);
    assert_eq!(apply_exposure_stops(2000, 1), 4000);
    assert_eq!(apply_exposure_stops(4000, 1), 8000);
    assert_eq!(apply_exposure_stops(4000, 0), 4000);
}

#[test]
fn histogram_plot_cap_limits_spikes() {
    assert_eq!(histogram_plot_cap(100, 65536, 256), 100);
    assert_eq!(histogram_plot_cap(65536, 65536, 256), 2560);
}

#[test]
fn feathered_radial_mask_ramps_down_across_the_band() {
    let mask = RadialGradientMask {
        center_x: 5000,
        center_y: 5000,
        radius_x: 2500,
        radius_y: 2500,
        feather: 5000,
        rotation: 0,
    };
    let inside = radial_gradient_mask_value(&mask, 5000, 5000);
    assert_eq!(inside, MASK_ONE);
    // one and a quarter radii out: a quarter of the way through the
    // feather band, which runs from 1.0 to 1.5 in boundary units
    let mid_band = radial_gradient_mask_value(&mask, 5000 + 3125, 5000);
    assert_eq!(mid_band, 5000);
    let outside = radial_gradient_mask_value(&mask, 5000 + 2500 * 2, 5000);
    assert_eq!(outside, 0);
}
