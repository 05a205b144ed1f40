use vstd::prelude::*;
use crate::math::div_i64;
use crate::math::SCALE;
use crate::rectangle::Rectangle;
use crate::rectangle::Vec2;

verus! {

/// A 2 by 2 rotation matrix in fixed point: SCALE is 1.0.
#[derive(Clone, Copy, PartialEq, Eq, Structural, Debug)]
pub struct Mat2 {
    pub m00: i64,
    pub m01: i64,
    pub m10: i64,
    pub m11: i64,
}

/// An exact ratio; intersection parameters are ratios of cross
/// products, kept unreduced. The denominator is never zero.
#[derive(Clone, Copy, PartialEq, Eq, Structural, Debug)]
pub struct Frac {
    pub num: i64,
    pub den: i64,
}

/// Fixed-point degrees reduced modulo one full turn, keeping the sign,
/// as the remainder operator does.
pub fn degrees_mod_turn(degrees: i64) -> (r: i64)
    requires
        -1000000 * SCALE <= degrees <= 1000000 * SCALE,
    ensures
        -360 * SCALE < r < 360 * SCALE,
        r == degrees - crate::math::div_trunc(degrees as int, 360 * SCALE) * 360 * SCALE,
{
    let q = div_i64(degrees, 360 * SCALE);
    proof {
        vstd::arithmetic::div_mod::lemma_fundamental_div_mod(degrees as int, 360 * SCALE);
        vstd::arithmetic::div_mod::lemma_mod_bound(degrees as int, 360 * SCALE);
        if degrees < 0 {
            vstd::arithmetic::div_mod::lemma_fundamental_div_mod(-(degrees as int), 360 * SCALE);
            vstd::arithmetic::div_mod::lemma_mod_bound(-(degrees as int), 360 * SCALE);
            assert((-(degrees as int)) / (360 * SCALE) * (360 * SCALE) == -(degrees as int) - (-(
            degrees as int)) % (360 * SCALE));
            assert(q * (360 * SCALE) == -((-(degrees as int)) / (360 * SCALE)) * (360 * SCALE))
                by (nonlinear_arith)
                requires
                    q == -((-(degrees as int)) / (360 * SCALE));
        }
    }
    degrees - q * (360 * SCALE)
}

/// The rotation matrix for an angle in fixed-point degrees. Quarter
/// and half turns get exact entries; any other angle uses the sine and
/// cosine the caller computed, avoiding precision loss exactly where
/// the geometry later relies on axis alignment.
pub fn get_rotation_mat_from_degrees(rotation_degrees: i64, sin_fp: i64, cos_fp: i64) -> (r: Mat2)
    requires
        -1000000 * SCALE <= rotation_degrees <= 1000000 * SCALE,
        -SCALE <= sin_fp <= SCALE,
        -SCALE <= cos_fp <= SCALE,
    ensures
        rotation_degrees == 0 ==> r == (Mat2 { m00: SCALE, m01: 0, m10: 0, m11: SCALE }),
        is_quarter_turn(rotation_degrees, 180 * SCALE) ==> r == (Mat2 {
            m00: (-10000i64),
            m01: 0,
            m10: 0,
            m11: (-10000i64),
        }),
        is_quarter_turn(rotation_degrees, 90 * SCALE) ==> r == (Mat2 {
            m00: 0,
            m01: (-10000i64),
            m10: SCALE,
            m11: 0,
        }),
        is_quarter_turn(rotation_degrees, 270 * SCALE) ==> r == (Mat2 {
            m00: 0,
            m01: SCALE,
            m10: (-10000i64),
            m11: 0,
        }),
        !is_quarter_turn(rotation_degrees, 90 * SCALE) && !is_quarter_turn(
            rotation_degrees,
            180 * SCALE,
        ) && !is_quarter_turn(rotation_degrees, 270 * SCALE) && !is_quarter_turn(
            rotation_degrees,
            0,
        ) ==> r == (Mat2 {
            m00: cos_fp,
            m01: (0 - sin_fp) as i64,
            m10: sin_fp,
            m11: cos_fp,
        }),
        -SCALE <= r.m00 <= SCALE && -SCALE <= r.m01 <= SCALE && -SCALE <= r.m10 <= SCALE && -SCALE
            <= r.m11 <= SCALE,
{
    let m = degrees_mod_turn(rotation_degrees);
    if m == 180 * SCALE || m == -180 * SCALE {
        return Mat2 { m00: (-10000i64), m01: 0, m10: 0, m11: (-10000i64) };
    }
    if m == 90 * SCALE || m == -270 * SCALE {
        return Mat2 { m00: 0, m01: (-10000i64), m10: SCALE, m11: 0 };
    }
    if m == -90 * SCALE || m == 270 * SCALE {
        return Mat2 { m00: 0, m01: SCALE, m10: (-10000i64), m11: 0 };
    }
    if m == 0 {
        return Mat2 { m00: SCALE, m01: 0, m10: 0, m11: SCALE };
    }
    Mat2 { m00: cos_fp, m01: (0i64 - sin_fp), m10: sin_fp, m11: cos_fp }
}

/// The angle reduces to `turn` or its negative complement.
pub open spec fn is_quarter_turn(degrees: i64, turn: int) -> bool {
    let m = degrees - crate::math::div_trunc(degrees as int, 360 * SCALE) * 360 * SCALE;
    m == turn || m == turn - 360 * SCALE
}

/// Coordinates the geometry operates on stay within a hundred image
/// widths so every product fits comfortably.
pub open spec fn coord_wf(v: i64) -> bool {
    -100 * SCALE <= v <= 100 * SCALE
}

pub open spec fn vec2_wf(v: Vec2) -> bool {
    coord_wf(v.x) && coord_wf(v.y)
}

/// Applies a rotation matrix to a point.
pub fn mat2_apply(m: &Mat2, v: Vec2) -> (r: Vec2)
    requires
        -SCALE <= m.m00 <= SCALE && -SCALE <= m.m01 <= SCALE,
        -SCALE <= m.m10 <= SCALE && -SCALE <= m.m11 <= SCALE,
        vec2_wf(v),
    ensures
        r.x == crate::math::div_trunc(m.m00 * v.x + m.m01 * v.y, SCALE as int),
        r.y == crate::math::div_trunc(m.m10 * v.x + m.m11 * v.y, SCALE as int),
        vec2_wf(r) || (-200 * SCALE <= r.x <= 200 * SCALE && -200 * SCALE <= r.y <= 200 * SCALE),
        -200 * SCALE <= r.x <= 200 * SCALE,
        -200 * SCALE <= r.y <= 200 * SCALE,
{
    proof {
        lemma_rot_products(m.m00, m.m01, v.x, v.y);
        lemma_rot_products(m.m10, m.m11, v.x, v.y);
    }
    let x = div_i64(m.m00 * v.x + m.m01 * v.y, SCALE);
    let y = div_i64(m.m10 * v.x + m.m11 * v.y, SCALE);
    Vec2 { x, y }
}

proof fn lemma_rot_products(a: i64, b: i64, x: i64, y: i64)
    requires
        -SCALE <= a <= SCALE,
        -SCALE <= b <= SCALE,
        coord_wf(x),
        coord_wf(y),
    ensures
        -10000000000 <= a * x <= 10000000000,
        -10000000000 <= b * y <= 10000000000,
        crate::math::div_trunc(a * x + b * y, SCALE as int) <= 200 * SCALE,
        crate::math::div_trunc(a * x + b * y, SCALE as int) >= -200 * SCALE,
{
    assert(-10000000000 <= a * x <= 10000000000) by (nonlinear_arith)
        requires
            -10000 <= a <= 10000,
            -1000000 <= x <= 1000000;
    assert(-10000000000 <= b * y <= 10000000000) by (nonlinear_arith)
        requires
            -10000 <= b <= 10000,
            -1000000 <= y <= 1000000;
    let s = a * x + b * y;
    if s >= 0 {
        vstd::arithmetic::div_mod::lemma_div_pos_is_pos(s, SCALE as int);
        vstd::arithmetic::div_mod::lemma_div_is_ordered(s, 20000000000, SCALE as int);
        assert(20000000000int / (SCALE as int) == 2000000);
    } else {
        vstd::arithmetic::div_mod::lemma_div_pos_is_pos(-s, SCALE as int);
        vstd::arithmetic::div_mod::lemma_div_is_ordered(-s, 20000000000, SCALE as int);
        assert(20000000000int / (SCALE as int) == 2000000);
    }
}

/// The two-dimensional cross product.
pub fn cross(a: Vec2, b: Vec2) -> (r: i64)
    requires
        -400 * SCALE <= a.x <= 400 * SCALE,
        -400 * SCALE <= a.y <= 400 * SCALE,
        -400 * SCALE <= b.x <= 400 * SCALE,
        -400 * SCALE <= b.y <= 400 * SCALE,
    ensures
        r == a.x * b.y - a.y * b.x,
        -32000000000000 <= r <= 32000000000000,
{
    proof {
        assert(-16000000000000 <= a.x * b.y <= 16000000000000) by (nonlinear_arith)
            requires
                -4000000 <= a.x <= 4000000,
                -4000000 <= b.y <= 4000000;
        assert(-16000000000000 <= a.y * b.x <= 16000000000000) by (nonlinear_arith)
            requires
                -4000000 <= a.y <= 4000000,
                -4000000 <= b.x <= 4000000;
    }
    a.x * b.y - a.y * b.x
}

/// Twice the signed area of a triangle; positive when the corners turn
/// counter-clockwise.
pub fn counter_clockwise_triangle_area_doubled(p0: Vec2, p1: Vec2, p2: Vec2) -> (r: i64)
    requires
        -400 * SCALE <= p0.x <= 400 * SCALE && -400 * SCALE <= p0.y <= 400 * SCALE,
        -400 * SCALE <= p1.x <= 400 * SCALE && -400 * SCALE <= p1.y <= 400 * SCALE,
        -400 * SCALE <= p2.x <= 400 * SCALE && -400 * SCALE <= p2.y <= 400 * SCALE,
    ensures
        r == (p1.x - p0.x) * (p2.y - p0.y) - (p2.x - p0.x) * (p1.y - p0.y),
{
    proof {
        assert(-64000000000000 <= (p1.x - p0.x) * (p2.y - p0.y) <= 64000000000000)
            by (nonlinear_arith)
            requires
                -8000000 <= p1.x - p0.x <= 8000000,
                -8000000 <= p2.y - p0.y <= 8000000;
        assert(-64000000000000 <= (p2.x - p0.x) * (p1.y - p0.y) <= 64000000000000)
            by (nonlinear_arith)
            requires
                -8000000 <= p2.x - p0.x <= 8000000,
                -8000000 <= p1.y - p0.y <= 8000000;
    }
    (p1.x - p0.x) * (p2.y - p0.y) - (p2.x - p0.x) * (p1.y - p0.y)
}

/// Whether a point lies strictly left of a directed segment.
pub fn point_is_left_of_segment(point: Vec2, segment_start: Vec2, segment_end: Vec2) -> (r: bool)
    requires
        -400 * SCALE <= point.x <= 400 * SCALE && -400 * SCALE <= point.y <= 400 * SCALE,
        -400 * SCALE <= segment_start.x <= 400 * SCALE && -400 * SCALE <= segment_start.y <= 400
            * SCALE,
        -400 * SCALE <= segment_end.x <= 400 * SCALE && -400 * SCALE <= segment_end.y <= 400
            * SCALE,
    ensures
        r == ((segment_end.x - segment_start.x) * (point.y - segment_start.y) - (point.x
            - segment_start.x) * (segment_end.y - segment_start.y) > 0),
{
    let area = counter_clockwise_triangle_area_doubled(segment_start, segment_end, point);
    area > 0
}

/// Where two rays meet: the parameters `t0`, `t1` with
/// `start_0 + t0 * dir_0 == start_1 + t1 * dir_1`, as exact ratios.
/// Nothing comes back exactly when the directions are parallel.
pub fn ray_ray_intersect(start_0: Vec2, dir_0: Vec2, start_1: Vec2, dir_1: Vec2) -> (r: Option<
    (Frac, Frac),
>)
    requires
        -200 * SCALE <= start_0.x <= 200 * SCALE && -200 * SCALE <= start_0.y <= 200 * SCALE,
        -400 * SCALE <= dir_0.x <= 400 * SCALE && -400 * SCALE <= dir_0.y <= 400 * SCALE,
        -200 * SCALE <= start_1.x <= 200 * SCALE && -200 * SCALE <= start_1.y <= 200 * SCALE,
        -400 * SCALE <= dir_1.x <= 400 * SCALE && -400 * SCALE <= dir_1.y <= 400 * SCALE,
    ensures
        r is None <==> dir_0.x * dir_1.y - dir_0.y * dir_1.x == 0,
        r matches Some((t0, t1)) ==> {
            &&& t0.den == dir_0.x * dir_1.y - dir_0.y * dir_1.x
            &&& t0.num == (start_1.x - start_0.x) * dir_1.y - (start_1.y - start_0.y) * dir_1.x
            &&& t1.den == dir_1.x * dir_0.y - dir_1.y * dir_0.x
            &&& t1.num == (start_0.x - start_1.x) * dir_0.y - (start_0.y - start_1.y) * dir_0.x
            &&& t0.den != 0
            &&& t1.den != 0
            &&& -32000000000000 <= t0.num <= 32000000000000
            &&& -32000000000000 <= t0.den <= 32000000000000
            &&& -32000000000000 <= t1.num <= 32000000000000
            &&& -32000000000000 <= t1.den <= 32000000000000
        },
{
    let dir_cross = cross(dir_0, dir_1);
    if dir_cross == 0 {
        return None;
    }
    let delta_0 = Vec2 { x: start_1.x - start_0.x, y: start_1.y - start_0.y };
    let delta_1 = Vec2 { x: start_0.x - start_1.x, y: start_0.y - start_1.y };
    let t0 = Frac { num: cross(delta_0, dir_1), den: dir_cross };
    let t1_den = cross(dir_1, dir_0);
    proof {
        assert(dir_1.x * dir_0.y - dir_1.y * dir_0.x == -(dir_0.x * dir_1.y - dir_0.y * dir_1.x))
            by (nonlinear_arith);
    }
    let t1 = Frac { num: cross(delta_1, dir_0), den: t1_den };
    Some((t0, t1))
}

/// The denominator of the ray parameter at a segment: the cross
/// product of the ray direction with the segment direction.
pub open spec fn ray_seg_den(ray_dir: Vec2, s0: Vec2, s1: Vec2) -> int {
    ray_dir.x * (s1.y - s0.y) - ray_dir.y * (s1.x - s0.x)
}

/// The numerator of the ray parameter at a segment.
pub open spec fn ray_seg_num(ray_start: Vec2, s0: Vec2, s1: Vec2) -> int {
    (s0.x - ray_start.x) * (s1.y - s0.y) - (s0.y - ray_start.y) * (s1.x - s0.x)
}

/// The numerator of the segment's own parameter at the meeting point;
/// its denominator is the negated ray denominator.
pub open spec fn seg_param_num(ray_start: Vec2, ray_dir: Vec2, s0: Vec2) -> int {
    (ray_start.x - s0.x) * ray_dir.y - (ray_start.y - s0.y) * ray_dir.x
}

/// The meeting point lies between the segment endpoints: the segment
/// parameter sits in [0, 1].
pub open spec fn seg_hit_within(ray_start: Vec2, ray_dir: Vec2, s0: Vec2, s1: Vec2) -> bool {
    let den = -ray_seg_den(ray_dir, s0, s1);
    let num = seg_param_num(ray_start, ray_dir, s0);
    if den > 0 {
        0 <= num <= den
    } else {
        den <= num <= 0
    }
}

/// Where a ray meets a segment: the ray parameter for the unnormalized
/// ray direction, exactly when the meeting point lies between the
/// segment's endpoints. The segment is traversed by its own parameter
/// in [0, 1] rather than by arc length, so no square root enters.
pub fn ray_segment_intersect(
    ray_start: Vec2,
    ray_dir: Vec2,
    segment_start: Vec2,
    segment_end: Vec2,
) -> (r: Option<Frac>)
    requires
        -200 * SCALE <= ray_start.x <= 200 * SCALE && -200 * SCALE <= ray_start.y <= 200 * SCALE,
        -400 * SCALE <= ray_dir.x <= 400 * SCALE && -400 * SCALE <= ray_dir.y <= 400 * SCALE,
        -200 * SCALE <= segment_start.x <= 200 * SCALE && -200 * SCALE <= segment_start.y <= 200
            * SCALE,
        -200 * SCALE <= segment_end.x <= 200 * SCALE && -200 * SCALE <= segment_end.y <= 200
            * SCALE,
    ensures
        r is Some <==> ray_seg_den(ray_dir, segment_start, segment_end) != 0 && seg_hit_within(
            ray_start,
            ray_dir,
            segment_start,
            segment_end,
        ),
        r matches Some(t) ==> t.num == ray_seg_num(ray_start, segment_start, segment_end)
            && t.den == ray_seg_den(ray_dir, segment_start, segment_end),
        r matches Some(t) ==> t.den != 0 && -32000000000000 <= t.num <= 32000000000000
            && -32000000000000 <= t.den <= 32000000000000,
{
    let seg_dir = Vec2 {
        x: segment_end.x - segment_start.x,
        y: segment_end.y - segment_start.y,
    };
    let pair = match ray_ray_intersect(ray_start, ray_dir, segment_start, seg_dir) {
        Some(p) => p,
        None => {
            return None;
        },
    };
    let (ray_t, seg_t) = pair;
    // the meeting point must lie between the segment's endpoints: its
    // parameter for the unnormalized direction lies in [0, 1]
    let inside = if seg_t.den > 0 {
        0 <= seg_t.num && seg_t.num <= seg_t.den
    } else {
        seg_t.den <= seg_t.num && seg_t.num <= 0
    };
    if inside {
        Some(ray_t)
    } else {
        None
    }
}

/// Compares a ratio with a fixed-point value: `t < bound`.
pub fn frac_lt(t: Frac, bound: i64) -> (r: bool)
    requires
        t.den != 0,
        -32000000000000 <= t.num <= 32000000000000,
        -32000000000000 <= t.den <= 32000000000000,
        -1000000000 <= bound <= 1000000000,
    ensures
        r == if t.den > 0 {
            t.num * SCALE < bound * t.den
        } else {
            t.num * SCALE > bound * t.den
        },
{
    proof {
        assert(-320000000000000000 <= t.num * SCALE <= 320000000000000000) by (nonlinear_arith)
            requires
                -32000000000000 <= t.num <= 32000000000000,
                SCALE == 10000;
        assert(-32000000000000000000000 <= (bound as int) * t.den <= 32000000000000000000000)
            by (nonlinear_arith)
            requires
                -32000000000000 <= t.den <= 32000000000000,
                -1000000000 <= bound <= 1000000000;
    }
    let lhs: i128 = (t.num as i128) * (SCALE as i128);
    let rhs: i128 = (bound as i128) * (t.den as i128);
    if t.den > 0 {
        lhs < rhs
    } else {
        lhs > rhs
    }
}

/// Whether a ratio is at least zero.
pub fn frac_nonneg(t: Frac) -> (r: bool)
    requires
        t.den != 0,
    ensures
        r == if t.den > 0 {
            t.num >= 0
        } else {
            t.num <= 0
        },
{
    if t.den > 0 {
        t.num >= 0
    } else {
        t.num <= 0
    }
}

/// A coordinate divided by the aspect ratio, as a value.
pub open spec fn deaspect_spec(v: i64, aspect: i64) -> int {
    crate::math::div_trunc(v * SCALE, aspect as int)
}

pub open spec fn int_abs(v: int) -> int {
    if v < 0 {
        -v
    } else {
        v
    }
}

/// The raw image corners, counter-clockwise from the origin.
pub open spec fn image_raw_corner(i: int) -> Vec2 {
    if i == 0 {
        Vec2 { x: 0, y: 0 }
    } else if i == 1 {
        Vec2 { x: 0, y: SCALE }
    } else if i == 2 {
        Vec2 { x: SCALE, y: SCALE }
    } else {
        Vec2 { x: SCALE, y: 0 }
    }
}

/// One image corner in the crop frame: x de-aspected, the crop center
/// subtracted, then rotated.
pub open spec fn image_corner_spec(mat: Mat2, rect: Rectangle, aspect: i64, i: int) -> Vec2 {
    let raw = image_raw_corner(i);
    let rx = deaspect_spec(raw.x, aspect) - deaspect_spec(rect.center.x, aspect);
    let ry = raw.y - rect.center.y;
    Vec2 {
        x: crate::math::div_trunc(mat.m00 * rx + mat.m01 * ry, SCALE as int) as i64,
        y: crate::math::div_trunc(mat.m10 * rx + mat.m11 * ry, SCALE as int) as i64,
    }
}

/// The raw crop corners, from the rectangle's min and max.
pub open spec fn crop_raw_corner(rect: Rectangle, i: int) -> Vec2 {
    let min_x = rect.center.x - crate::math::div_trunc(rect.size.x as int, 2);
    let min_y = rect.center.y - crate::math::div_trunc(rect.size.y as int, 2);
    let max_x = rect.center.x + crate::math::div_trunc(rect.size.x as int, 2);
    let max_y = rect.center.y + crate::math::div_trunc(rect.size.y as int, 2);
    if i == 0 {
        Vec2 { x: min_x as i64, y: min_y as i64 }
    } else if i == 1 {
        Vec2 { x: min_x as i64, y: max_y as i64 }
    } else if i == 2 {
        Vec2 { x: max_x as i64, y: max_y as i64 }
    } else {
        Vec2 { x: max_x as i64, y: min_y as i64 }
    }
}

/// One crop corner in the crop frame: x de-aspected, the crop center
/// subtracted; the crop itself is never rotated.
pub open spec fn crop_corner_spec(rect: Rectangle, aspect: i64, i: int) -> Vec2 {
    let raw = crop_raw_corner(rect, i);
    Vec2 {
        x: (deaspect_spec(raw.x, aspect) - deaspect_spec(rect.center.x, aspect)) as i64,
        y: (raw.y - rect.center.y) as i64,
    }
}

/// The image edge the scan pairs with index `k`: from corner `k % 4`
/// to the next corner around.
pub open spec fn shrink_seg_start(mat: Mat2, rect: Rectangle, aspect: i64, k: int) -> Vec2 {
    image_corner_spec(mat, rect, aspect, k % 4)
}

pub open spec fn shrink_seg_end(mat: Mat2, rect: Rectangle, aspect: i64, k: int) -> Vec2 {
    image_corner_spec(mat, rect, aspect, if k % 4 == 3 {
        0
    } else {
        k % 4 + 1
    })
}

/// Whether scan pair `k` — crop corner `k / 4` against image edge
/// `k % 4` — cuts the ray from the crop center through the corner
/// within the edge, at a nonnegative parameter strictly before the
/// corner.
pub open spec fn shrink_hit(mat: Mat2, rect: Rectangle, aspect: i64, k: int) -> bool {
    let origin = Vec2 { x: 0, y: 0 };
    let corner = crop_corner_spec(rect, aspect, k / 4);
    let s0 = shrink_seg_start(mat, rect, aspect, k);
    let s1 = shrink_seg_end(mat, rect, aspect, k);
    let den = ray_seg_den(corner, s0, s1);
    let num = ray_seg_num(origin, s0, s1);
    &&& den != 0
    &&& seg_hit_within(origin, corner, s0, s1)
    &&& (if den > 0 {
        num >= 0
    } else {
        num <= 0
    })
    &&& (if den > 0 {
        num * SCALE < SCALE * den
    } else {
        num * SCALE > SCALE * den
    })
}

/// The extent scan pair `k` allows along one axis: twice the
/// intersection parameter scaled onto the half extent.
pub open spec fn shrink_candidate(mat: Mat2, rect: Rectangle, aspect: i64, k: int, half: int) -> int {
    let origin = Vec2 { x: 0, y: 0 };
    let corner = crop_corner_spec(rect, aspect, k / 4);
    let s0 = shrink_seg_start(mat, rect, aspect, k);
    let s1 = shrink_seg_end(mat, rect, aspect, k);
    let den = ray_seg_den(corner, s0, s1);
    let num = ray_seg_num(origin, s0, s1);
    2 * int_abs(num) * half / int_abs(den)
}

/// Whether any of the first `k` scan pairs cuts a corner ray.
pub open spec fn shrink_any_upto(mat: Mat2, rect: Rectangle, aspect: i64, k: int) -> bool
    decreases k,
{
    if k <= 0 {
        false
    } else {
        shrink_any_upto(mat, rect, aspect, k - 1) || shrink_hit(mat, rect, aspect, k - 1)
    }
}

/// The horizontal extent after the first `k` scan pairs: the crop's
/// own extent, reduced to the smallest cutting candidate seen.
pub open spec fn shrink_size_x_upto(mat: Mat2, rect: Rectangle, aspect: i64, k: int) -> int
    decreases k,
{
    if k <= 0 {
        rect.size.x as int
    } else {
        let prev = shrink_size_x_upto(mat, rect, aspect, k - 1);
        if shrink_hit(mat, rect, aspect, k - 1) {
            let c = shrink_candidate(
                mat,
                rect,
                aspect,
                k - 1,
                crate::math::div_trunc(rect.size.x as int, 2),
            );
            if c < prev {
                c
            } else {
                prev
            }
        } else {
            prev
        }
    }
}

/// The vertical extent after the first `k` scan pairs.
pub open spec fn shrink_size_y_upto(mat: Mat2, rect: Rectangle, aspect: i64, k: int) -> int
    decreases k,
{
    if k <= 0 {
        rect.size.y as int
    } else {
        let prev = shrink_size_y_upto(mat, rect, aspect, k - 1);
        if shrink_hit(mat, rect, aspect, k - 1) {
            let c = shrink_candidate(
                mat,
                rect,
                aspect,
                k - 1,
                crate::math::div_trunc(rect.size.y as int, 2),
            );
            if c < prev {
                c
            } else {
                prev
            }
        } else {
            prev
        }
    }
}

/// A ratio as a fixed-point value, rounded toward zero, as a value.
pub open spec fn frac_fixed_spec(num: int, den: int) -> int {
    if (num * SCALE >= 0) == (den > 0) {
        int_abs(num * SCALE) / int_abs(den)
    } else {
        -(int_abs(num * SCALE) / int_abs(den))
    }
}

/// Whether a point lies strictly left of a directed segment, as a
/// value.
pub open spec fn left_of_spec(p: Vec2, s0: Vec2, s1: Vec2) -> bool {
    (s1.x - s0.x) * (p.y - s0.y) - (p.x - s0.x) * (s1.y - s0.y) > 0
}

/// The four translation directions the bounds are measured along:
/// left, right, up, down, each one unit long.
pub open spec fn bounds_dir(i: int) -> Vec2 {
    if i == 0 {
        Vec2 { x: (0 - SCALE) as i64, y: 0 }
    } else if i == 1 {
        Vec2 { x: SCALE, y: 0 }
    } else if i == 2 {
        Vec2 { x: 0, y: (0 - SCALE) as i64 }
    } else {
        Vec2 { x: 0, y: SCALE }
    }
}

/// A lower bound raised to `v` when that is higher.
pub open spec fn opt_max_spec(o: Option<i64>, v: int) -> Option<i64> {
    match o {
        Some(x) => if x >= v {
            Some(x)
        } else {
            Some(v as i64)
        },
        None => Some(v as i64),
    }
}

/// An upper bound lowered to `v` when that is lower.
pub open spec fn opt_min_spec(o: Option<i64>, v: int) -> Option<i64> {
    match o {
        Some(x) => if x <= v {
            Some(x)
        } else {
            Some(v as i64)
        },
        None => Some(v as i64),
    }
}

/// One scan step of the translation bounds along direction `di`:
/// corner `k / 4` against image edge `k % 4`. A corner already outside
/// the edge must be pushed back inside; an inside corner must not be
/// pushed past the edge; a ray grazing along the edge is held at zero
/// on its blocked side.
pub open spec fn bounds_step(
    mat: Mat2,
    rect: Rectangle,
    aspect: i64,
    di: int,
    k: int,
    state: (Option<i64>, Option<i64>),
) -> (Option<i64>, Option<i64>) {
    let dir = bounds_dir(di);
    let corner = crop_corner_spec(rect, aspect, k / 4);
    let s0 = shrink_seg_start(mat, rect, aspect, k);
    let s1 = shrink_seg_end(mat, rect, aspect, k);
    let den = ray_seg_den(dir, s0, s1);
    if den != 0 && seg_hit_within(corner, dir, s0, s1) {
        let t = frac_fixed_spec(ray_seg_num(corner, s0, s1), den);
        if left_of_spec(corner, s0, s1) {
            if t >= 0 {
                (opt_max_spec(state.0, t), state.1)
            } else {
                (state.0, opt_min_spec(state.1, t))
            }
        } else if t > 0 {
            (state.0, opt_min_spec(state.1, t))
        } else if t == 0 {
            let ahead = Vec2 { x: (corner.x + dir.x) as i64, y: (corner.y + dir.y) as i64 };
            if !left_of_spec(ahead, s0, s1) {
                (opt_max_spec(state.0, 0), state.1)
            } else {
                (state.0, opt_min_spec(state.1, 0))
            }
        } else {
            (opt_max_spec(state.0, t), state.1)
        }
    } else {
        state
    }
}

/// The bounds along direction `di` after the first `k` scan pairs.
pub open spec fn bounds_upto(mat: Mat2, rect: Rectangle, aspect: i64, di: int, k: int) -> (
    Option<i64>,
    Option<i64>,
)
    decreases k,
{
    if k <= 0 {
        (None, None)
    } else {
        bounds_step(mat, rect, aspect, di, k - 1, bounds_upto(mat, rect, aspect, di, k - 1))
    }
}

/// The scanned extents never grow, stay below every cutting candidate,
/// and the any-hit flag reflects exactly the pairs seen so far.
proof fn lemma_shrink_scan_facts(mat: Mat2, rect: Rectangle, aspect: i64, k: int)
    requires
        0 <= k <= 16,
    ensures
        forall|j: int|
            0 <= j < k && shrink_hit(mat, rect, aspect, j) ==> shrink_size_x_upto(
                mat,
                rect,
                aspect,
                k,
            ) <= #[trigger] shrink_candidate(
                mat,
                rect,
                aspect,
                j,
                crate::math::div_trunc(rect.size.x as int, 2),
            ),
        forall|j: int|
            0 <= j < k && shrink_hit(mat, rect, aspect, j) ==> shrink_size_y_upto(
                mat,
                rect,
                aspect,
                k,
            ) <= #[trigger] shrink_candidate(
                mat,
                rect,
                aspect,
                j,
                crate::math::div_trunc(rect.size.y as int, 2),
            ),
        !shrink_any_upto(mat, rect, aspect, k) ==> forall|j: int|
            0 <= j < k ==> !(#[trigger] shrink_hit(mat, rect, aspect, j)),
        shrink_size_x_upto(mat, rect, aspect, k) <= rect.size.x,
        shrink_size_y_upto(mat, rect, aspect, k) <= rect.size.y,
    decreases k,
{
    if k > 0 {
        lemma_shrink_scan_facts(mat, rect, aspect, k - 1);
    }
}

/// A crop rectangle in normalized image coordinates.
pub open spec fn crop_rect_wf(r: Rectangle) -> bool {
    &&& 0 <= r.center.x <= SCALE && 0 <= r.center.y <= SCALE
    &&& 0 <= r.size.x <= SCALE && 0 <= r.size.y <= SCALE
}

/// Aspect ratios the geometry accepts: between a tenth and a hundred.
pub open spec fn aspect_wf(a: i64) -> bool {
    1000 <= a <= 100 * SCALE
}

/// A coordinate divided by the aspect ratio.
fn deaspect(v: i64, aspect: i64) -> (r: i64)
    requires
        -2 * SCALE <= v <= 2 * SCALE,
        aspect_wf(aspect),
    ensures
        r == crate::math::div_trunc(v * SCALE, aspect as int),
        -20 * SCALE <= r <= 20 * SCALE,
{
    let r = div_i64(v * SCALE, aspect);
    proof {
        if v >= 0 {
            vstd::arithmetic::div_mod::lemma_div_is_ordered_by_denominator(
                v * SCALE,
                1000,
                aspect as int,
            );
            vstd::arithmetic::div_mod::lemma_div_is_ordered(v * SCALE, 200000000, 1000);
            assert(200000000int / 1000 == 200000);
        } else {
            vstd::arithmetic::div_mod::lemma_div_is_ordered_by_denominator(
                -(v * SCALE),
                1000,
                aspect as int,
            );
            vstd::arithmetic::div_mod::lemma_div_is_ordered(-(v * SCALE), 200000000, 1000);
            assert(200000000int / 1000 == 200000);
        }
    }
    r
}

/// The four image corners in the crop's frame: x divided by the aspect
/// ratio, moved so the crop center is the origin, then rotated.
pub fn get_full_image_corner_positions(
    rotation_mat: &Mat2,
    crop_rect: Rectangle,
    image_aspect_ratio: i64,
) -> (r: Vec<Vec2>)
    requires
        -SCALE <= rotation_mat.m00 <= SCALE && -SCALE <= rotation_mat.m01 <= SCALE,
        -SCALE <= rotation_mat.m10 <= SCALE && -SCALE <= rotation_mat.m11 <= SCALE,
        crop_rect_wf(crop_rect),
        aspect_wf(image_aspect_ratio),
    ensures
        r@.len() == 4,
        forall|i: int|
            0 <= i < 4 ==> #[trigger] r@[i] == image_corner_spec(
                *rotation_mat,
                crop_rect,
                image_aspect_ratio,
                i,
            ),
        forall|i: int|
            0 <= i < 4 ==> -200 * SCALE <= (#[trigger] r@[i]).x <= 200 * SCALE && -200 * SCALE
                <= r@[i].y <= 200 * SCALE,
{
    let center = Vec2 {
        x: deaspect(crop_rect.center.x, image_aspect_ratio),
        y: crop_rect.center.y,
    };
    let mut corners: Vec<Vec2> = Vec::new();
    let raw: [Vec2; 4] = [
        Vec2 { x: 0, y: 0 },
        Vec2 { x: 0, y: SCALE },
        Vec2 { x: SCALE, y: SCALE },
        Vec2 { x: SCALE, y: 0 },
    ];
    let mut i: usize = 0;
    while i < 4
        invariant
            0 <= i <= 4,
            corners@.len() == i,
            -SCALE <= rotation_mat.m00 <= SCALE && -SCALE <= rotation_mat.m01 <= SCALE,
            -SCALE <= rotation_mat.m10 <= SCALE && -SCALE <= rotation_mat.m11 <= SCALE,
            aspect_wf(image_aspect_ratio),
            crop_rect_wf(crop_rect),
            raw@.len() == 4,
            forall|j: int| 0 <= j < 4 ==> #[trigger] raw@[j] == image_raw_corner(j),
            forall|j: int| 0 <= j < 4 ==> 0 <= (#[trigger] raw@[j]).x <= SCALE && 0 <= raw@[j].y
                <= SCALE,
            center.x == deaspect_spec(crop_rect.center.x, image_aspect_ratio),
            center.y == crop_rect.center.y,
            -20 * SCALE <= center.x <= 20 * SCALE,
            0 <= center.y <= SCALE,
            forall|j: int|
                0 <= j < i ==> #[trigger] corners@[j] == image_corner_spec(
                    *rotation_mat,
                    crop_rect,
                    image_aspect_ratio,
                    j,
                ),
            forall|j: int|
                0 <= j < i ==> -200 * SCALE <= (#[trigger] corners@[j]).x <= 200 * SCALE && -200
                    * SCALE <= corners@[j].y <= 200 * SCALE,
        decreases 4 - i,
    {
        let c = raw[i];
        let deaspected = Vec2 { x: deaspect(c.x, image_aspect_ratio), y: c.y };
        let relative = Vec2 { x: deaspected.x - center.x, y: deaspected.y - center.y };
        let rotated = mat2_apply(rotation_mat, relative);
        corners.push(rotated);
        proof {
            assert(corners@[i as int] == image_corner_spec(
                *rotation_mat,
                crop_rect,
                image_aspect_ratio,
                i as int,
            ));
        }
        i = i + 1;
    }
    corners
}

/// The crop rectangle's corners in the same frame, not rotated: the
/// crop stays axis aligned while the image turns under it.
pub fn get_crop_rect_corner_positions(crop_rect: Rectangle, image_aspect_ratio: i64) -> (r: Vec<
    Vec2,
>)
    requires
        crop_rect_wf(crop_rect),
        aspect_wf(image_aspect_ratio),
    ensures
        r@.len() == 4,
        forall|i: int|
            0 <= i < 4 ==> #[trigger] r@[i] == crop_corner_spec(crop_rect, image_aspect_ratio, i),
        forall|i: int|
            0 <= i < 4 ==> -200 * SCALE <= (#[trigger] r@[i]).x <= 200 * SCALE && -200 * SCALE
                <= r@[i].y <= 200 * SCALE,
{
    let rect_min = crop_rect.min();
    let rect_max = crop_rect.max();
    let center = Vec2 {
        x: deaspect(crop_rect.center.x, image_aspect_ratio),
        y: crop_rect.center.y,
    };
    let raw: [Vec2; 4] = [
        rect_min,
        Vec2 { x: rect_min.x, y: rect_max.y },
        rect_max,
        Vec2 { x: rect_max.x, y: rect_min.y },
    ];
    let mut corners: Vec<Vec2> = Vec::new();
    let mut i: usize = 0;
    while i < 4
        invariant
            0 <= i <= 4,
            corners@.len() == i,
            raw@.len() == 4,
            forall|j: int| 0 <= j < 4 ==> #[trigger] raw@[j] == crop_raw_corner(crop_rect, j),
            forall|j: int| 0 <= j < 4 ==> -SCALE <= (#[trigger] raw@[j]).x <= 2 * SCALE && -SCALE
                <= raw@[j].y <= 2 * SCALE,
            aspect_wf(image_aspect_ratio),
            crop_rect_wf(crop_rect),
            center.x == deaspect_spec(crop_rect.center.x, image_aspect_ratio),
            center.y == crop_rect.center.y,
            -20 * SCALE <= center.x <= 20 * SCALE,
            0 <= center.y <= SCALE,
            forall|j: int|
                0 <= j < i ==> #[trigger] corners@[j] == crop_corner_spec(
                    crop_rect,
                    image_aspect_ratio,
                    j,
                ),
            forall|j: int|
                0 <= j < i ==> -200 * SCALE <= (#[trigger] corners@[j]).x <= 200 * SCALE && -200
                    * SCALE <= corners@[j].y <= 200 * SCALE,
        decreases 4 - i,
    {
        let c = raw[i];
        let deaspected = Vec2 { x: deaspect(c.x, image_aspect_ratio), y: c.y };
        let relative = Vec2 { x: deaspected.x - center.x, y: deaspected.y - center.y };
        corners.push(relative);
        proof {
            assert(corners@[i as int] == crop_corner_spec(
                crop_rect,
                image_aspect_ratio,
                i as int,
            ));
        }
        i = i + 1;
    }
    corners
}

/// How far along the ray toward a crop corner the crop may extend: the
/// intersection parameter scaled onto the corner's half extent, at
/// most the full extent.
fn scaled_candidate(s: Frac, half_extent: i64) -> (r: i64)
    requires
        s.den != 0,
        -32000000000000 <= s.num <= 32000000000000,
        -32000000000000 <= s.den <= 32000000000000,
        0 <= half_extent <= SCALE,
        if s.den > 0 {
            0 <= s.num <= s.den
        } else {
            s.den <= s.num <= 0
        },
    ensures
        0 <= r <= 2 * half_extent,
        r == 2 * int_abs(s.num as int) * half_extent / int_abs(s.den as int),
{
    let num_abs: u128 = if s.num >= 0 {
        s.num as u128
    } else {
        (-(s.num as i128)) as u128
    };
    let den_abs: u128 = if s.den >= 0 {
        s.den as u128
    } else {
        (-(s.den as i128)) as u128
    };
    proof {
        let n = num_abs as int;
        let d = den_abs as int;
        let h = half_extent as int;
        assert(0 <= 2 * n * h <= 640000000000000000) by (nonlinear_arith)
            requires
                0 <= n <= 32000000000000,
                0 <= h <= 10000;
        assert(2 * n * h <= 2 * d * h) by (nonlinear_arith)
            requires
                n <= d,
                0 <= h,
                0 <= n;
        assert(2 * d * h == (2 * h) * d) by (nonlinear_arith);
        vstd::arithmetic::div_mod::lemma_div_is_ordered(2 * n * h, 2 * d * h, d);
        vstd::arithmetic::div_mod::lemma_div_multiples_vanish(2 * h, d);
        vstd::arithmetic::div_mod::lemma_div_pos_is_pos(2 * n * h, d);
    }
    let product: u128 = 2 * num_abs * (half_extent as u128);
    let q: u128 = product / den_abs;
    q as i64
}

/// Shrinks the crop about its center when the rotation would let it
/// see past the image: each crop corner's ray from the center is cut
/// at the first image edge it crosses, and both extents are reduced to
/// the cut. Nothing comes back when every corner stays inside. A
/// shrunk crop keeps its center, and neither extent ever grows.
#[verifier::rlimit(100)]
#[verifier::spinoff_prover]
pub fn maybe_shrink_crop_rect_due_to_rotation(
    rotation_mat: &Mat2,
    crop_rect: Rectangle,
    image_aspect_ratio: i64,
) -> (r: Option<Rectangle>)
    requires
        -SCALE <= rotation_mat.m00 <= SCALE && -SCALE <= rotation_mat.m01 <= SCALE,
        -SCALE <= rotation_mat.m10 <= SCALE && -SCALE <= rotation_mat.m11 <= SCALE,
        crop_rect_wf(crop_rect),
        aspect_wf(image_aspect_ratio),
    ensures
        (r is Some) == shrink_any_upto(*rotation_mat, crop_rect, image_aspect_ratio, 16),
        r is None ==> forall|k: int|
            0 <= k < 16 ==> !(#[trigger] shrink_hit(*rotation_mat, crop_rect, image_aspect_ratio, k)),
        r matches Some(shrunk) ==> {
            &&& shrunk.center == crop_rect.center
            &&& 0 <= shrunk.size.x <= crop_rect.size.x
            &&& 0 <= shrunk.size.y <= crop_rect.size.y
            &&& shrunk.size.x == shrink_size_x_upto(*rotation_mat, crop_rect, image_aspect_ratio, 16)
            &&& shrunk.size.y == shrink_size_y_upto(*rotation_mat, crop_rect, image_aspect_ratio, 16)
            &&& forall|k: int|
                0 <= k < 16 && #[trigger] shrink_hit(*rotation_mat, crop_rect, image_aspect_ratio, k)
                    ==> shrunk.size.x <= shrink_candidate(
                    *rotation_mat,
                    crop_rect,
                    image_aspect_ratio,
                    k,
                    crate::math::div_trunc(crop_rect.size.x as int, 2),
                ) && shrunk.size.y <= shrink_candidate(
                    *rotation_mat,
                    crop_rect,
                    image_aspect_ratio,
                    k,
                    crate::math::div_trunc(crop_rect.size.y as int, 2),
                )
        },
{
    proof {
        lemma_shrink_scan_facts(*rotation_mat, crop_rect, image_aspect_ratio, 16);
    }
    let image_corners = get_full_image_corner_positions(
        rotation_mat,
        crop_rect,
        image_aspect_ratio,
    );
    let crop_corners = get_crop_rect_corner_positions(crop_rect, image_aspect_ratio);
    let half_x = div_i64(crop_rect.size.x, 2);
    let half_y = div_i64(crop_rect.size.y, 2);
    let mut new_size_x = crop_rect.size.x;
    let mut new_size_y = crop_rect.size.y;
    let mut any_hit = false;
    let mut ci: usize = 0;
    while ci < 4
        invariant
            0 <= ci <= 4,
            image_corners@.len() == 4,
            crop_corners@.len() == 4,
            forall|i: int|
                0 <= i < 4 ==> -200 * SCALE <= (#[trigger] image_corners@[i]).x <= 200 * SCALE
                    && -200 * SCALE <= image_corners@[i].y <= 200 * SCALE,
            forall|i: int|
                0 <= i < 4 ==> -200 * SCALE <= (#[trigger] crop_corners@[i]).x <= 200 * SCALE
                    && -200 * SCALE <= crop_corners@[i].y <= 200 * SCALE,
            forall|i: int|
                0 <= i < 4 ==> #[trigger] image_corners@[i] == image_corner_spec(
                    *rotation_mat,
                    crop_rect,
                    image_aspect_ratio,
                    i,
                ),
            forall|i: int|
                0 <= i < 4 ==> #[trigger] crop_corners@[i] == crop_corner_spec(
                    crop_rect,
                    image_aspect_ratio,
                    i,
                ),
            half_x == crate::math::div_trunc(crop_rect.size.x as int, 2),
            half_y == crate::math::div_trunc(crop_rect.size.y as int, 2),
            0 <= half_x <= SCALE,
            0 <= half_y <= SCALE,
            0 <= new_size_x <= crop_rect.size.x,
            0 <= new_size_y <= crop_rect.size.y,
            any_hit == shrink_any_upto(*rotation_mat, crop_rect, image_aspect_ratio, 4 * ci),
            new_size_x == shrink_size_x_upto(*rotation_mat, crop_rect, image_aspect_ratio, 4 * ci),
            new_size_y == shrink_size_y_upto(*rotation_mat, crop_rect, image_aspect_ratio, 4 * ci),
        decreases 4 - ci,
    {
        let corner = crop_corners[ci];
        let mut ei: usize = 0;
        while ei < 4
            invariant
                0 <= ei <= 4,
                image_corners@.len() == 4,
                forall|i: int|
                    0 <= i < 4 ==> -200 * SCALE <= (#[trigger] image_corners@[i]).x <= 200 * SCALE
                        && -200 * SCALE <= image_corners@[i].y <= 200 * SCALE,
                -200 * SCALE <= corner.x <= 200 * SCALE,
                -200 * SCALE <= corner.y <= 200 * SCALE,
                ci < 4,
                corner == crop_corner_spec(crop_rect, image_aspect_ratio, ci as int),
                forall|i: int|
                    0 <= i < 4 ==> #[trigger] image_corners@[i] == image_corner_spec(
                        *rotation_mat,
                        crop_rect,
                        image_aspect_ratio,
                        i,
                    ),
                half_x == crate::math::div_trunc(crop_rect.size.x as int, 2),
                half_y == crate::math::div_trunc(crop_rect.size.y as int, 2),
                0 <= half_x <= SCALE,
                0 <= half_y <= SCALE,
                0 <= new_size_x <= crop_rect.size.x,
                0 <= new_size_y <= crop_rect.size.y,
                any_hit == shrink_any_upto(
                    *rotation_mat,
                    crop_rect,
                    image_aspect_ratio,
                    4 * ci + ei,
                ),
                new_size_x == shrink_size_x_upto(
                    *rotation_mat,
                    crop_rect,
                    image_aspect_ratio,
                    4 * ci + ei,
                ),
                new_size_y == shrink_size_y_upto(
                    *rotation_mat,
                    crop_rect,
                    image_aspect_ratio,
                    4 * ci + ei,
                ),
            decreases 4 - ei,
        {
            let seg_start = image_corners[ei];
            let seg_end = image_corners[if ei == 3 {
                0
            } else {
                ei + 1
            }];
            let ghost k = 4 * ci + ei;
            proof {
                assert(seg_start == shrink_seg_start(
                    *rotation_mat,
                    crop_rect,
                    image_aspect_ratio,
                    k as int,
                ));
                assert(seg_end == shrink_seg_end(
                    *rotation_mat,
                    crop_rect,
                    image_aspect_ratio,
                    k as int,
                ));
            }
            let hit = ray_segment_intersect(Vec2 { x: 0, y: 0 }, corner, seg_start, seg_end);
            match hit {
                Some(t) => {
                    // the edge cuts the corner's ray before the corner
                    // itself: the parameter lies in [0, 1)
                    let cuts = frac_nonneg(t) && frac_lt(t, SCALE);
                    proof {
                        assert(cuts == shrink_hit(
                            *rotation_mat,
                            crop_rect,
                            image_aspect_ratio,
                            k as int,
                        ));
                    }
                    if cuts {
                        let t_clamped = clamp_unit_frac(t);
                        let candidate_x = scaled_candidate(t_clamped, half_x);
                        let candidate_y = scaled_candidate(t_clamped, half_y);
                        proof {
                            assert(candidate_x == shrink_candidate(
                                *rotation_mat,
                                crop_rect,
                                image_aspect_ratio,
                                k as int,
                                half_x as int,
                            ));
                            assert(candidate_y == shrink_candidate(
                                *rotation_mat,
                                crop_rect,
                                image_aspect_ratio,
                                k as int,
                                half_y as int,
                            ));
                        }
                        any_hit = true;
                        if candidate_x < new_size_x {
                            new_size_x = candidate_x;
                        }
                        if candidate_y < new_size_y {
                            new_size_y = candidate_y;
                        }
                    }
                },
                None => {
                    proof {
                        assert(!shrink_hit(
                            *rotation_mat,
                            crop_rect,
                            image_aspect_ratio,
                            k as int,
                        ));
                    }
                },
            }
            proof {
                assert(any_hit == shrink_any_upto(
                    *rotation_mat,
                    crop_rect,
                    image_aspect_ratio,
                    k + 1,
                ));
                assert(new_size_x == shrink_size_x_upto(
                    *rotation_mat,
                    crop_rect,
                    image_aspect_ratio,
                    k + 1,
                ));
                assert(new_size_y == shrink_size_y_upto(
                    *rotation_mat,
                    crop_rect,
                    image_aspect_ratio,
                    k + 1,
                ));
            }
            ei = ei + 1;
        }
        ci = ci + 1;
    }
    if any_hit {
        Some(
            Rectangle {
                center: crop_rect.center,
                size: Vec2 { x: new_size_x, y: new_size_y },
            },
        )
    } else {
        None
    }
}

/// Restates a nonnegative intersection parameter below one as lying
/// in [0, 1]; the value itself is untouched.
fn clamp_unit_frac(t: Frac) -> (r: Frac)
    requires
        t.den != 0,
        -32000000000000 <= t.num <= 32000000000000,
        -32000000000000 <= t.den <= 32000000000000,
        if t.den > 0 {
            t.num >= 0
        } else {
            t.num <= 0
        },
        if t.den > 0 {
            t.num * SCALE < SCALE * t.den
        } else {
            t.num * SCALE > SCALE * t.den
        },
    ensures
        r == t,
        r.den != 0,
        -32000000000000 <= r.num <= 32000000000000,
        -32000000000000 <= r.den <= 32000000000000,
        if r.den > 0 {
            0 <= r.num <= r.den
        } else {
            r.den <= r.num <= 0
        },
{
    proof {
        if t.den > 0 {
            assert(t.num < t.den) by (nonlinear_arith)
                requires
                    t.num * SCALE < SCALE * t.den,
                    SCALE == 10000;
        } else {
            assert(t.num > t.den) by (nonlinear_arith)
                requires
                    t.num * SCALE > SCALE * t.den,
                    SCALE == 10000;
        }
    }
    t
}

/// How far the crop may slide along each axis before a corner leaves
/// the rotated image: per direction — left, right, up, down — a lower
/// and an upper bound on the translation, each absent when that side
/// is unbounded. The bounds are in the crop frame's normalized units.
#[verifier::rlimit(100)]
#[verifier::spinoff_prover]
pub fn get_crop_rect_translation_bounds(
    rotation_mat: &Mat2,
    crop_rect: Rectangle,
    image_aspect_ratio: i64,
) -> (r: Vec<(Option<i64>, Option<i64>)>)
    requires
        -SCALE <= rotation_mat.m00 <= SCALE && -SCALE <= rotation_mat.m01 <= SCALE,
        -SCALE <= rotation_mat.m10 <= SCALE && -SCALE <= rotation_mat.m11 <= SCALE,
        crop_rect_wf(crop_rect),
        aspect_wf(image_aspect_ratio),
    ensures
        r@.len() == 4,
        forall|i: int|
            0 <= i < 4 ==> #[trigger] r@[i] == bounds_upto(
                *rotation_mat,
                crop_rect,
                image_aspect_ratio,
                i,
                16,
            ),
{
    let image_corners = get_full_image_corner_positions(
        rotation_mat,
        crop_rect,
        image_aspect_ratio,
    );
    let crop_corners = get_crop_rect_corner_positions(crop_rect, image_aspect_ratio);
    let ray_dirs: [Vec2; 4] = [
        Vec2 { x: (0i64 - SCALE), y: 0 },
        Vec2 { x: SCALE, y: 0 },
        Vec2 { x: 0, y: (0i64 - SCALE) },
        Vec2 { x: 0, y: SCALE },
    ];
    let mut bounds: Vec<(Option<i64>, Option<i64>)> = Vec::new();
    let mut di: usize = 0;
    while di < 4
        invariant
            0 <= di <= 4,
            bounds@.len() == di,
            image_corners@.len() == 4,
            crop_corners@.len() == 4,
            ray_dirs@.len() == 4,
            forall|i: int|
                0 <= i < 4 ==> -200 * SCALE <= (#[trigger] image_corners@[i]).x <= 200 * SCALE
                    && -200 * SCALE <= image_corners@[i].y <= 200 * SCALE,
            forall|i: int|
                0 <= i < 4 ==> -200 * SCALE <= (#[trigger] crop_corners@[i]).x <= 200 * SCALE
                    && -200 * SCALE <= crop_corners@[i].y <= 200 * SCALE,
            forall|i: int|
                0 <= i < 4 ==> -SCALE <= (#[trigger] ray_dirs@[i]).x <= SCALE && -SCALE
                    <= ray_dirs@[i].y <= SCALE,
            forall|i: int| 0 <= i < 4 ==> #[trigger] ray_dirs@[i] == bounds_dir(i),
            forall|i: int|
                0 <= i < 4 ==> #[trigger] image_corners@[i] == image_corner_spec(
                    *rotation_mat,
                    crop_rect,
                    image_aspect_ratio,
                    i,
                ),
            forall|i: int|
                0 <= i < 4 ==> #[trigger] crop_corners@[i] == crop_corner_spec(
                    crop_rect,
                    image_aspect_ratio,
                    i,
                ),
            forall|j: int|
                0 <= j < di ==> #[trigger] bounds@[j] == bounds_upto(
                    *rotation_mat,
                    crop_rect,
                    image_aspect_ratio,
                    j,
                    16,
                ),
        decreases 4 - di,
    {
        let dir = ray_dirs[di];
        let mut lower: Option<i64> = None;
        let mut upper: Option<i64> = None;
        let mut ci: usize = 0;
        while ci < 4
            invariant
                0 <= ci <= 4,
                image_corners@.len() == 4,
                crop_corners@.len() == 4,
                forall|i: int|
                    0 <= i < 4 ==> -200 * SCALE <= (#[trigger] image_corners@[i]).x <= 200 * SCALE
                        && -200 * SCALE <= image_corners@[i].y <= 200 * SCALE,
                forall|i: int|
                    0 <= i < 4 ==> -200 * SCALE <= (#[trigger] crop_corners@[i]).x <= 200 * SCALE
                        && -200 * SCALE <= crop_corners@[i].y <= 200 * SCALE,
                -SCALE <= dir.x <= SCALE,
                -SCALE <= dir.y <= SCALE,
                di < 4,
                dir == bounds_dir(di as int),
                forall|i: int|
                    0 <= i < 4 ==> #[trigger] image_corners@[i] == image_corner_spec(
                        *rotation_mat,
                        crop_rect,
                        image_aspect_ratio,
                        i,
                    ),
                forall|i: int|
                    0 <= i < 4 ==> #[trigger] crop_corners@[i] == crop_corner_spec(
                        crop_rect,
                        image_aspect_ratio,
                        i,
                    ),
                (lower, upper) == bounds_upto(
                    *rotation_mat,
                    crop_rect,
                    image_aspect_ratio,
                    di as int,
                    4 * ci,
                ),
            decreases 4 - ci,
        {
            let corner = crop_corners[ci];
            let mut ei: usize = 0;
            while ei < 4
                invariant
                    0 <= ei <= 4,
                    image_corners@.len() == 4,
                    forall|i: int|
                        0 <= i < 4 ==> -200 * SCALE <= (#[trigger] image_corners@[i]).x <= 200
                            * SCALE && -200 * SCALE <= image_corners@[i].y <= 200 * SCALE,
                    -200 * SCALE <= corner.x <= 200 * SCALE,
                    -200 * SCALE <= corner.y <= 200 * SCALE,
                    -SCALE <= dir.x <= SCALE,
                    -SCALE <= dir.y <= SCALE,
                    di < 4,
                    ci < 4,
                    dir == bounds_dir(di as int),
                    corner == crop_corner_spec(crop_rect, image_aspect_ratio, ci as int),
                    forall|i: int|
                        0 <= i < 4 ==> #[trigger] image_corners@[i] == image_corner_spec(
                            *rotation_mat,
                            crop_rect,
                            image_aspect_ratio,
                            i,
                        ),
                    (lower, upper) == bounds_upto(
                        *rotation_mat,
                        crop_rect,
                        image_aspect_ratio,
                        di as int,
                        4 * ci + ei,
                    ),
                decreases 4 - ei,
            {
                let seg_start = image_corners[ei];
                let seg_end = image_corners[if ei == 3 {
                    0
                } else {
                    ei + 1
                }];
                let hit = ray_segment_intersect(corner, dir, seg_start, seg_end);
                match hit {
                    Some(t) => {
                        let t_fixed = frac_to_fixed(t);
                        let is_outside = point_is_left_of_segment(corner, seg_start, seg_end);
                        if is_outside {
                            // this corner already sits on the wrong
                            // side: the move must push it back in
                            if t_fixed >= 0 {
                                lower = max_opt(lower, t_fixed);
                            } else {
                                upper = min_opt(upper, t_fixed);
                            }
                        } else if t_fixed > 0 {
                            // moving forward may not pass the edge
                            upper = min_opt(upper, t_fixed);
                        } else if t_fixed == 0 {
                            let ahead = Vec2 { x: corner.x + dir.x, y: corner.y + dir.y };
                            let can_go_forwards = !point_is_left_of_segment(
                                ahead,
                                seg_start,
                                seg_end,
                            );
                            if can_go_forwards {
                                lower = max_opt(lower, 0);
                            } else {
                                upper = min_opt(upper, 0);
                            }
                        } else {
                            lower = max_opt(lower, t_fixed);
                        }
                    },
                    None => {},
                }
                proof {
                    let ghost k = 4 * ci + ei;
                    assert(seg_start == shrink_seg_start(
                        *rotation_mat,
                        crop_rect,
                        image_aspect_ratio,
                        k as int,
                    ));
                    assert(seg_end == shrink_seg_end(
                        *rotation_mat,
                        crop_rect,
                        image_aspect_ratio,
                        k as int,
                    ));
                    assert((lower, upper) == bounds_upto(
                        *rotation_mat,
                        crop_rect,
                        image_aspect_ratio,
                        di as int,
                        k + 1,
                    ));
                }
                ei = ei + 1;
            }
            ci = ci + 1;
        }
        bounds.push((lower, upper));
        di = di + 1;
    }
    bounds
}

/// A ratio as a fixed-point value, rounded toward zero.
fn frac_to_fixed(t: Frac) -> (r: i64)
    requires
        t.den != 0,
        -32000000000000 <= t.num <= 32000000000000,
        -32000000000000 <= t.den <= 32000000000000,
    ensures
        -320000000000000000 <= r <= 320000000000000000,
        r == frac_fixed_spec(t.num as int, t.den as int),
{
    proof {
        assert(-320000000000000000 <= (t.num as int) * SCALE <= 320000000000000000)
            by (nonlinear_arith)
            requires
                -32000000000000 <= t.num <= 32000000000000,
                SCALE == 10000;
    }
    let scaled: i128 = (t.num as i128) * (SCALE as i128);
    let num_abs: u128 = if scaled >= 0 {
        scaled as u128
    } else {
        (-scaled) as u128
    };
    let den_abs: u128 = if t.den >= 0 {
        t.den as u128
    } else {
        (-(t.den as i128)) as u128
    };
    let q: u128 = num_abs / den_abs;
    proof {
        vstd::arithmetic::div_mod::lemma_div_is_ordered(
            q as int * 0 + q as int,
            num_abs as int,
            1,
        );
        vstd::arithmetic::div_mod::lemma_div_nonincreasing(num_abs as int, den_abs as int);
        vstd::arithmetic::div_mod::lemma_div_pos_is_pos(num_abs as int, den_abs as int);
    }
    let same_sign = (scaled >= 0) == (t.den > 0);
    if same_sign {
        q as i64
    } else {
        -(q as i64)
    }
}

fn max_opt(a: Option<i64>, b: i64) -> (r: Option<i64>)
    ensures
        r matches Some(v) && (a matches Some(x) ==> v == if x >= b {
            x
        } else {
            b
        }) && (a is None ==> v == b),
{
    match a {
        Some(x) => if x >= b {
            Some(x)
        } else {
            Some(b)
        },
        None => Some(b),
    }
}

fn min_opt(a: Option<i64>, b: i64) -> (r: Option<i64>)
    ensures
        r matches Some(v) && (a matches Some(x) ==> v == if x <= b {
            x
        } else {
            b
        }) && (a is None ==> v == b),
{
    match a {
        Some(x) => if x <= b {
            Some(x)
        } else {
            Some(b)
        },
        None => Some(b),
    }
}

} // verus!
