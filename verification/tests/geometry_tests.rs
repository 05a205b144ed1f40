use salon_core::geometry::get_crop_rect_translation_bounds;
use salon_core::geometry::get_rotation_mat_from_degrees;
use salon_core::geometry::maybe_shrink_crop_rect_due_to_rotation;
use salon_core::geometry::Mat2;
use salon_core::rectangle::Rectangle;
use salon_core::rectangle::Vec2;

const SCALE: i64 = 10000;

fn centered_crop(size_x: i64, size_y: i64) -> Rectangle {
    Rectangle {
        center: Vec2 { x: SCALE / 2, y: SCALE / 2 },
        size: Vec2 { x: size_x, y: size_y },
    }
}

#[test]
fn quarter_turns_get_exact_matrices() {
    let identity = get_rotation_mat_from_degrees(0, 0, SCALE);
    assert_eq!(identity, Mat2 { m00: SCALE, m01: 0, m10: 0, m11: SCALE });
    let half = get_rotation_mat_from_degrees(180 * SCALE, 123, 456);
    assert_eq!(half, Mat2 { m00: -SCALE, m01: 0, m10: 0, m11: -SCALE });
    let quarter = get_rotation_mat_from_degrees(90 * SCALE, 123, 456);
    assert_eq!(quarter, Mat2 { m00: 0, m01: -SCALE, m10: SCALE, m11: 0 });
    let neg_quarter = get_rotation_mat_from_degrees(-90 * SCALE, 123, 456);
    assert_eq!(neg_quarter, Mat2 { m00: 0, m01: SCALE, m10: -SCALE, m11: 0 });
    // a full negative turn reduces like no turn at all
    let full = get_rotation_mat_from_degrees(-360 * SCALE, 0, SCALE);
    assert_eq!(full, Mat2 { m00: SCALE, m01: 0, m10: 0, m11: SCALE });
}

#[test]
fn unrotated_crop_inside_the_image_is_not_shrunk() {
    let mat = get_rotation_mat_from_degrees(0, 0, SCALE);
    let crop = centered_crop(6000, 6000);
    let shrunk = maybe_shrink_crop_rect_due_to_rotation(&mat, crop, SCALE);
    assert!(shrunk.is_none());
}

#[test]
fn rotation_shrinks_a_full_crop_and_keeps_its_center() {
    // 45 degrees on a square image: a full-size crop cannot fit
    let s = 7071; // sin(45 degrees)
    let c = 7071;
    let mat = get_rotation_mat_from_degrees(45 * SCALE, s, c);
    let crop = centered_crop(10000, 10000);
    let shrunk =
        maybe_shrink_crop_rect_due_to_rotation(&mat, crop, SCALE).expect("the crop must shrink");
    assert_eq!(shrunk.center, crop.center);
    assert!(shrunk.size.x <= crop.size.x);
    assert!(shrunk.size.y <= crop.size.y);
    assert!(shrunk.size.x < crop.size.x || shrunk.size.y < crop.size.y);
    // at 45 degrees the inscribed square has just over seven tenths of
    // the extent
    assert!(shrunk.size.x >= 6800 && shrunk.size.x <= 7400, "size {}", shrunk.size.x);
}

#[test]
fn quarter_turn_keeps_a_square_crop() {
    let mat = get_rotation_mat_from_degrees(90 * SCALE, 123, 456);
    let crop = centered_crop(8000, 8000);
    match maybe_shrink_crop_rect_due_to_rotation(&mat, crop, SCALE) {
        None => {},
        Some(shrunk) => {
            // the corner rays may graze the rotated edges, but a
            // square crop under a quarter turn keeps its extent
            assert!(shrunk.size.x >= 7800 && shrunk.size.y >= 7800);
        },
    }
}

#[test]
fn translation_bounds_cover_all_four_directions() {
    let mat = get_rotation_mat_from_degrees(0, 0, SCALE);
    let crop = centered_crop(5000, 5000);
    let bounds = get_crop_rect_translation_bounds(&mat, crop, SCALE);
    assert_eq!(bounds.len(), 4);
    for (lower, upper) in &bounds {
        // a small centered crop in an unrotated image can move some
        // positive distance each way but not arbitrarily far
        if let Some(hi) = upper {
            assert!(*hi >= 0);
        }
        let _ = lower;
    }
}
