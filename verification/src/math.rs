use vstd::prelude::*;

verus! {

/// One unit in the fixed-point encoding used for all scalar
/// parameters and normalized coordinates: the stored integer is the
/// real value times this scale.
pub const SCALE: i64 = 10000;

/// Ceiling division as a value: `div_up`'s result.
pub open spec fn div_up_spec(a: u32, b: u32) -> u32 {
    (((a + b - 1) as int) / (b as int)) as u32
}

/// Ceiling division: the number of workgroups needed to cover `a` items
/// when each workgroup covers `b` of them.
pub fn div_up(a: u32, b: u32) -> (r: u32)
    requires
        b > 0,
    ensures
        r == (a + b - 1) as int / b as int,
        r == div_up_spec(a, b),
        r * b >= a,
{
    if a == 0 {
        proof {
            vstd::arithmetic::div_mod::lemma_basic_div(b - 1, b as int);
        }
        return 0;
    }
    let r = (a - 1) / b + 1;
    proof {
        vstd::arithmetic::div_mod::lemma_div_plus_one((a - 1) as int, b as int);
        vstd::arithmetic::div_mod::lemma_fundamental_div_mod((a - 1) as int, b as int);
        vstd::arithmetic::div_mod::lemma_mod_bound((a - 1) as int, b as int);
        let d = ((a - 1) as int) / (b as int);
        let m = ((a - 1) as int) % (b as int);
        assert(r * b >= a) by (nonlinear_arith)
            requires
                r == d + 1,
                (b as int) * d + m == a - 1,
                0 <= m,
                m < b,
                a >= 1;
    }
    r
}

/// Truncating division (rounding toward zero), the convention used
/// for all fixed-point arithmetic in this crate.
pub open spec fn div_trunc(a: int, b: int) -> int {
    if a >= 0 {
        a / b
    } else {
        -((-a) / b)
    }
}

/// Truncating signed division on the fixed-point representation.
pub fn div_i64(a: i64, b: i64) -> (r: i64)
    requires
        b > 0,
        a > i64::MIN,
    ensures
        r == div_trunc(a as int, b as int),
        a >= 0 ==> 0 <= r <= a,
        a < 0 ==> a <= r <= 0,
{
    proof {
        if a >= 0 {
            vstd::arithmetic::div_mod::lemma_div_pos_is_pos(a as int, b as int);
            vstd::arithmetic::div_mod::lemma_div_nonincreasing(a as int, b as int);
        } else {
            vstd::arithmetic::div_mod::lemma_div_pos_is_pos(-(a as int), b as int);
            vstd::arithmetic::div_mod::lemma_div_nonincreasing(-(a as int), b as int);
        }
    }
    if a >= 0 {
        ((a as u64) / (b as u64)) as i64
    } else {
        let m = ((-a) as u64) / (b as u64);
        -(m as i64)
    }
}

} // verus!
