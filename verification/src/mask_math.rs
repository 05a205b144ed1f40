use vstd::prelude::*;
use crate::ir::LinearGradientMask;
use crate::ir::Mask;
use crate::ir::MaskPrimitive;
use crate::ir::MaskTerm;
use crate::ir::RadialGradientMask;
use crate::math::div_i64;
use crate::math::div_trunc;
use crate::math::SCALE;

verus! {

/// A fully opaque mask sample; samples live in [0, SCALE].
pub const MASK_ONE: i64 = 10000;

/// The complement of a mask sample.
pub open spec fn invert_spec(v: i64) -> int {
    MASK_ONE - v
}

/// Inverting a sample twice reproduces it exactly: inversion is an
/// involution on [0, 1].
pub proof fn lemma_invert_involution(v: i64)
    requires
        0 <= v <= MASK_ONE,
    ensures
        invert_spec(invert_spec(v) as i64) == v,
{
}

/// One inverted mask sample; stays in [0, 1].
pub fn invert_mask_value(v: i64) -> (r: i64)
    requires
        0 <= v <= MASK_ONE,
    ensures
        r == invert_spec(v),
        0 <= r <= MASK_ONE,
{
    MASK_ONE - v
}

/// The sum of two mask samples, clamped to full opacity; stays in
/// [0, 1].
pub fn add_mask_values(a: i64, b: i64) -> (r: i64)
    requires
        0 <= a <= MASK_ONE,
        0 <= b <= MASK_ONE,
    ensures
        r == if a + b <= MASK_ONE { a + b } else { MASK_ONE as int },
        0 <= r <= MASK_ONE,
{
    if a + b <= MASK_ONE {
        a + b
    } else {
        MASK_ONE
    }
}

/// The difference of two mask samples, clamped to full transparency;
/// stays in [0, 1].
pub fn subtract_mask_values(a: i64, b: i64) -> (r: i64)
    requires
        0 <= a <= MASK_ONE,
        0 <= b <= MASK_ONE,
    ensures
        r == if a - b >= 0 { a - b } else { 0int },
        0 <= r <= MASK_ONE,
{
    if a >= b {
        a - b
    } else {
        0
    }
}

/// Integer square root by bisection.
pub fn isqrt(x: u64) -> (r: u64)
    ensures
        r * r <= x,
        x < (r + 1) * (r + 1),
        r < 4294967296,
{
    let mut lo: u64 = 0;
    let mut hi: u64 = 4294967296;
    proof {
        assert(x < 4294967296u64 * 4294967296u64);
    }
    while lo + 1 < hi
        invariant
            lo < hi <= 4294967296,
            lo * lo <= x,
            x < hi * hi,
        decreases hi - lo,
    {
        let mid = lo + (hi - lo) / 2;
        proof {
            assert(mid < 4294967296);
            assert(mid * mid <= 4294967295u64 * 4294967295u64) by (nonlinear_arith)
                requires
                    0 <= mid <= 4294967295u64;
        }
        if mid * mid <= x {
            lo = mid;
        } else {
            hi = mid;
        }
    }
    lo
}

/// The parameters a radial or linear primitive must stay within so the
/// sample arithmetic cannot overflow: normalized coordinates within
/// ten image widths, radii positive and at most ten widths.
pub open spec fn radial_params_wf(mask: RadialGradientMask) -> bool {
    &&& 1 <= mask.radius_x <= 10 * SCALE
    &&& 1 <= mask.radius_y <= 10 * SCALE
    &&& -10 * SCALE <= mask.center_x <= 10 * SCALE
    &&& -10 * SCALE <= mask.center_y <= 10 * SCALE
    &&& 0 <= mask.feather <= 100 * SCALE
}

pub open spec fn linear_params_wf(mask: LinearGradientMask) -> bool {
    &&& -10 * SCALE <= mask.begin_x <= 10 * SCALE
    &&& -10 * SCALE <= mask.begin_y <= 10 * SCALE
    &&& -10 * SCALE <= mask.end_x <= 10 * SCALE
    &&& -10 * SCALE <= mask.end_y <= 10 * SCALE
    &&& !(mask.begin_x == mask.end_x && mask.begin_y == mask.end_y)
}

pub open spec fn sample_coord_wf(c: i64) -> bool {
    -10 * SCALE <= c <= 10 * SCALE
}

/// The squared normalized ellipse distance of a point from the mask's
/// center, in units where SCALE is the ellipse boundary.
pub open spec fn radial_d2(mask: RadialGradientMask, x: i64, y: i64) -> int {
    let u = div_trunc((x - mask.center_x) * SCALE, mask.radius_x as int);
    let v = div_trunc((y - mask.center_y) * SCALE, mask.radius_y as int);
    u * u + v * v
}

/// One sample of a radial gradient: opaque inside the ellipse, falling
/// off linearly across the feather band outside it. Every sample lies
/// in [0, 1]; with no feather the sample is the sharp inside test.
pub fn radial_gradient_mask_value(mask: &RadialGradientMask, x: i64, y: i64) -> (r: i64)
    requires
        radial_params_wf(*mask),
        sample_coord_wf(x),
        sample_coord_wf(y),
    ensures
        0 <= r <= MASK_ONE,
        r == radial_sample_spec(*mask, x, y),
        mask.feather == 0 ==> r == if radial_d2(*mask, x, y) <= SCALE * SCALE {
            MASK_ONE as int
        } else {
            0int
        },
        radial_d2(*mask, x, y) <= SCALE * SCALE ==> r == MASK_ONE,
{
    let dx = x - mask.center_x;
    let dy = y - mask.center_y;
    let u = div_i64(dx * SCALE, mask.radius_x);
    let v = div_i64(dy * SCALE, mask.radius_y);
    proof {
        assert(-2000000000 <= u <= 2000000000);
        assert(-2000000000 <= v <= 2000000000);
        assert(0 <= u * u <= 4000000000000000000) by (nonlinear_arith)
            requires
                -2000000000 <= u <= 2000000000;
        assert(0 <= v * v <= 4000000000000000000) by (nonlinear_arith)
            requires
                -2000000000 <= v <= 2000000000;
    }
    let d2 = u * u + v * v;
    if d2 <= SCALE * SCALE {
        return MASK_ONE;
    }
    if mask.feather == 0 {
        return 0;
    }
    proof {
        assert(d2 >= 0);
    }
    let d2u = d2 as u64;
    let du = isqrt(d2u);
    let d = du as i64;
    proof {
        assert(d2u == d2);
        assert(d >= 0);
        assert(d * d <= d2 < (d + 1) * (d + 1));
        lemma_isqrt_unique(d2 as int, d as int);
        assert(d >= SCALE) by (nonlinear_arith)
            requires
                d >= 0,
                d * d <= d2,
                d2 > SCALE * SCALE,
                d2 < (d + 1) * (d + 1),
                SCALE == 10000;
    }
    let outer = SCALE + mask.feather;
    if d >= outer {
        0
    } else {
        let ramp = div_i64((outer - d) * SCALE, mask.feather);
        proof {
            assert((outer - d) * SCALE <= mask.feather * SCALE) by (nonlinear_arith)
                requires
                    0 < outer - d <= mask.feather,
                    SCALE == 10000;
            vstd::arithmetic::div_mod::lemma_div_multiples_vanish(
                SCALE as int,
                mask.feather as int,
            );
            assert(div_trunc(mask.feather * SCALE, mask.feather as int) == SCALE) by {
                assert(mask.feather * SCALE == SCALE * mask.feather) by (nonlinear_arith);
            };
            assert(ramp <= SCALE) by {
                vstd::arithmetic::div_mod::lemma_div_is_ordered(
                    (outer - d) * SCALE,
                    mask.feather * SCALE,
                    mask.feather as int,
                );
            };
        }
        if ramp > MASK_ONE {
            MASK_ONE
        } else if ramp < 0 {
            0
        } else {
            ramp
        }
    }
}

/// One sample of a linear gradient: the clamped projection of the
/// point onto the line from the begin point to the end point, zero at
/// the begin side and opaque at the end side. Every sample lies in
/// [0, 1].
pub fn linear_gradient_mask_value(mask: &LinearGradientMask, x: i64, y: i64) -> (r: i64)
    requires
        linear_params_wf(*mask),
        sample_coord_wf(x),
        sample_coord_wf(y),
    ensures
        0 <= r <= MASK_ONE,
        r == linear_sample_spec(*mask, x, y),
        r == clamp_to_mask(
            div_trunc(linear_projection_numer(*mask, x, y) * SCALE, linear_den(*mask)),
        ),
{
    let ex = mask.end_x - mask.begin_x;
    let ey = mask.end_y - mask.begin_y;
    let px = x - mask.begin_x;
    let py = y - mask.begin_y;
    proof {
        lemma_linear_bounds(*mask, x, y);
        assert(-400000000 * SCALE <= px * ex <= 400000000 * SCALE) by (nonlinear_arith)
            requires
                -20 * SCALE <= px <= 20 * SCALE,
                -20 * SCALE <= ex <= 20 * SCALE,
                SCALE == 10000;
        assert(-400000000 * SCALE <= py * ey <= 400000000 * SCALE) by (nonlinear_arith)
            requires
                -20 * SCALE <= py <= 20 * SCALE,
                -20 * SCALE <= ey <= 20 * SCALE,
                SCALE == 10000;
        assert(0 <= ex * ex <= 400000000 * SCALE) by (nonlinear_arith)
            requires
                -20 * SCALE <= ex <= 20 * SCALE,
                SCALE == 10000;
        assert(0 <= ey * ey <= 400000000 * SCALE) by (nonlinear_arith)
            requires
                -20 * SCALE <= ey <= 20 * SCALE,
                SCALE == 10000;
    }
    let num = px * ex + py * ey;
    let den = ex * ex + ey * ey;
    let t = div_i64(num * SCALE, den);
    if t < 0 {
        0
    } else if t > MASK_ONE {
        MASK_ONE
    } else {
        t
    }
}

pub open spec fn linear_projection_numer(mask: LinearGradientMask, x: i64, y: i64) -> int {
    (x - mask.begin_x) * (mask.end_x - mask.begin_x) + (y - mask.begin_y) * (mask.end_y
        - mask.begin_y)
}

pub open spec fn linear_den(mask: LinearGradientMask) -> int {
    (mask.end_x - mask.begin_x) * (mask.end_x - mask.begin_x) + (mask.end_y - mask.begin_y) * (
    mask.end_y - mask.begin_y)
}

pub open spec fn clamp_to_mask(v: int) -> int {
    if v < 0 {
        0
    } else if v > MASK_ONE {
        MASK_ONE as int
    } else {
        v
    }
}

proof fn lemma_linear_bounds(mask: LinearGradientMask, x: i64, y: i64)
    requires
        linear_params_wf(mask),
        sample_coord_wf(x),
        sample_coord_wf(y),
    ensures
        0 < linear_den(mask) <= 800000000 * SCALE,
        -800000000 * SCALE <= linear_projection_numer(mask, x, y) <= 800000000 * SCALE,
{
    let ex = mask.end_x - mask.begin_x;
    let ey = mask.end_y - mask.begin_y;
    let px = x - mask.begin_x;
    let py = y - mask.begin_y;
    assert(ex * ex >= 0 && ey * ey >= 0 && (ex != 0 || ey != 0) ==> ex * ex + ey * ey > 0)
        by (nonlinear_arith);
    assert(ex * ex >= 0) by (nonlinear_arith);
    assert(ey * ey >= 0) by (nonlinear_arith);
    assert(ex != 0 ==> ex * ex > 0) by (nonlinear_arith);
    assert(ey != 0 ==> ey * ey > 0) by (nonlinear_arith);
    assert(ex * ex <= 400000000 * SCALE) by (nonlinear_arith)
        requires
            -20 * SCALE <= ex <= 20 * SCALE,
            SCALE == 10000;
    assert(ey * ey <= 400000000 * SCALE) by (nonlinear_arith)
        requires
            -20 * SCALE <= ey <= 20 * SCALE,
            SCALE == 10000;
    assert(-400000000 * SCALE <= px * ex <= 400000000 * SCALE) by (nonlinear_arith)
        requires
            -20 * SCALE <= px <= 20 * SCALE,
            -20 * SCALE <= ex <= 20 * SCALE,
            SCALE == 10000;
    assert(-400000000 * SCALE <= py * ey <= 400000000 * SCALE) by (nonlinear_arith)
        requires
            -20 * SCALE <= py <= 20 * SCALE,
            -20 * SCALE <= ey <= 20 * SCALE,
            SCALE == 10000;
}

/// The integer square root as a value: the unique `r` with
/// `r*r <= x < (r+1)*(r+1)`.
pub open spec fn isqrt_spec(x: int) -> int {
    if x < 0 {
        0
    } else {
        choose|r: int| 0 <= r && #[trigger] (r * r) <= x && x < (r + 1) * (r + 1)
    }
}

proof fn lemma_isqrt_unique(x: int, r: int)
    requires
        0 <= x,
        0 <= r,
        r * r <= x,
        x < (r + 1) * (r + 1),
    ensures
        isqrt_spec(x) == r,
{
    assert(0 <= r && r * r <= x && x < (r + 1) * (r + 1));
    let c = choose|q: int| 0 <= q && #[trigger] (q * q) <= x && x < (q + 1) * (q + 1);
    assert(c == r) by (nonlinear_arith)
        requires
            0 <= c,
            0 <= r,
            c * c <= x,
            x < (c + 1) * (c + 1),
            r * r <= x,
            x < (r + 1) * (r + 1);
}

/// One radial sample as a value: opaque inside the ellipse, a linear
/// ramp over the feather band, transparent beyond it.
pub open spec fn radial_sample_spec(mask: RadialGradientMask, x: i64, y: i64) -> int {
    let d2 = radial_d2(mask, x, y);
    if d2 <= SCALE * SCALE {
        MASK_ONE as int
    } else if mask.feather == 0 {
        0
    } else {
        let d = isqrt_spec(d2);
        if d >= SCALE + mask.feather {
            0
        } else {
            clamp_to_mask(div_trunc((SCALE + mask.feather - d) * SCALE, mask.feather as int))
        }
    }
}

/// One linear sample as a value: the clamped projection onto the line.
pub open spec fn linear_sample_spec(mask: LinearGradientMask, x: i64, y: i64) -> int {
    clamp_to_mask(div_trunc(linear_projection_numer(mask, x, y) * SCALE, linear_den(mask)))
}

/// One term's sample: its primitive's sample, inverted when asked.
pub open spec fn term_sample_spec(t: MaskTerm, x: i64, y: i64) -> int {
    let primitive = match t.primitive {
        MaskPrimitive::Global(_) => MASK_ONE as int,
        MaskPrimitive::RadialGradient(m) => radial_sample_spec(m, x, y),
        MaskPrimitive::LinearGradient(m) => linear_sample_spec(m, x, y),
    };
    if t.inverted {
        MASK_ONE - primitive
    } else {
        primitive
    }
}

/// The sum of two samples clamped to full opacity.
pub open spec fn add_sample_spec(a: int, b: int) -> int {
    if a + b <= MASK_ONE {
        a + b
    } else {
        MASK_ONE as int
    }
}

/// The difference of two samples clamped to full transparency.
pub open spec fn sub_sample_spec(a: int, b: int) -> int {
    if a - b >= 0 {
        a - b
    } else {
        0
    }
}

/// One sample of the composition of the first `k` terms: the first
/// term's sample, then each further term's sample added or subtracted
/// with saturation, left to right.
pub open spec fn mask_sample_upto(terms: Seq<MaskTerm>, x: i64, y: i64, k: int) -> int
    decreases k,
{
    if k <= 1 {
        term_sample_spec(terms[0], x, y)
    } else {
        let acc = mask_sample_upto(terms, x, y, k - 1);
        let t = term_sample_spec(terms[k - 1], x, y);
        if terms[k - 1].subtracted {
            sub_sample_spec(acc, t)
        } else {
            add_sample_spec(acc, t)
        }
    }
}

/// Every term's parameters are within the sample arithmetic's bounds.
pub open spec fn mask_params_wf(mask: Mask) -> bool {
    forall|i: int|
        0 <= i < mask.terms@.len() ==> match (#[trigger] mask.terms@[i]).primitive {
            MaskPrimitive::Global(_) => true,
            MaskPrimitive::RadialGradient(m) => radial_params_wf(m),
            MaskPrimitive::LinearGradient(m) => linear_params_wf(m),
        }
}

/// Every sample of a composed mask lies in [0, 1]: the first term's
/// sample does, and saturating addition and subtraction keep it there.
pub proof fn lemma_mask_sample_range(terms: Seq<MaskTerm>, x: i64, y: i64, k: int)
    requires
        1 <= k <= terms.len(),
        forall|i: int|
            0 <= i < terms.len() ==> (match (#[trigger] terms[i]).primitive {
                MaskPrimitive::Global(_) => true,
                MaskPrimitive::RadialGradient(m) => radial_params_wf(m),
                MaskPrimitive::LinearGradient(m) => linear_params_wf(m),
            }),
    ensures
        0 <= mask_sample_upto(terms, x, y, k) <= MASK_ONE,
    decreases k,
{
    if k <= 1 {
        lemma_term_sample_range(terms[0], x, y);
    } else {
        lemma_mask_sample_range(terms, x, y, k - 1);
        lemma_term_sample_range(terms[k - 1], x, y);
    }
}

/// One term's sample lies in [0, 1].
proof fn lemma_term_sample_range(t: MaskTerm, x: i64, y: i64)
    requires
        match t.primitive {
            MaskPrimitive::Global(_) => true,
            MaskPrimitive::RadialGradient(m) => radial_params_wf(m),
            MaskPrimitive::LinearGradient(m) => linear_params_wf(m),
        },
    ensures
        0 <= term_sample_spec(t, x, y) <= MASK_ONE,
{
    match t.primitive {
        MaskPrimitive::Global(_) => {},
        MaskPrimitive::RadialGradient(m) => {
            lemma_radial_sample_range(m, x, y);
        },
        MaskPrimitive::LinearGradient(m) => {},
    }
}

/// One radial sample lies in [0, 1].
proof fn lemma_radial_sample_range(m: RadialGradientMask, x: i64, y: i64)
    requires
        radial_params_wf(m),
    ensures
        0 <= radial_sample_spec(m, x, y) <= MASK_ONE,
{
}

/// One sample of a composed mask: the first term's sample — inverted
/// when asked — then each further term added or subtracted with
/// saturation. Every sample of the composition lies in [0, 1].
pub fn mask_value_at(mask: &Mask, x: i64, y: i64) -> (r: i64)
    requires
        mask.terms@.len() >= 1,
        mask_params_wf(*mask),
        sample_coord_wf(x),
        sample_coord_wf(y),
    ensures
        0 <= r <= MASK_ONE,
        r == mask_sample_upto(mask.terms@, x, y, mask.terms@.len() as int),
        mask.is_single_global_spec() ==> r == MASK_ONE,
{
    let mut acc: i64 = 0;
    let n = mask.terms.len();
    let mut i: usize = 0;
    while i < n
        invariant
            0 <= i <= n,
            n == mask.terms@.len(),
            mask_params_wf(*mask),
            sample_coord_wf(x),
            sample_coord_wf(y),
            0 <= acc <= MASK_ONE,
            i >= 1 ==> acc == mask_sample_upto(mask.terms@, x, y, i as int),
            i >= 1 && mask.is_single_global_spec() ==> acc == MASK_ONE,
        decreases n - i,
    {
        let term = &mask.terms[i];
        let primitive_value = match term.primitive {
            MaskPrimitive::Global(_) => MASK_ONE,
            MaskPrimitive::RadialGradient(m) => radial_gradient_mask_value(&m, x, y),
            MaskPrimitive::LinearGradient(m) => linear_gradient_mask_value(&m, x, y),
        };
        let term_value = if term.inverted {
            invert_mask_value(primitive_value)
        } else {
            primitive_value
        };
        if i == 0 {
            acc = term_value;
        } else if term.subtracted {
            acc = subtract_mask_values(acc, term_value);
        } else {
            acc = add_mask_values(acc, term_value);
        }
        i = i + 1;
    }
    acc
}

} // verus!
