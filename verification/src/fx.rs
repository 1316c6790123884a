//! Saturating fixed-point scalars.
//!
//! A scalar is an `i64` holding `value * 1_000_000`. Every operation clips
//! its result to `[-FX_MAX, FX_MAX]`, so no operation here has a
//! precondition and no stored quantity can overflow; this is the integer
//! analogue of clamping non-finite floating-point state.

use vstd::prelude::*;

verus! {

/// Fixed-point representation of 1.0.
pub const FX_ONE: i64 = 1_000_000;

/// Largest magnitude a fixed-point scalar may take (10^9 in real units).
pub const FX_MAX: i64 = 1_000_000_000_000_000;

/// Smallest value a fixed-point scalar may take.
pub const FX_MIN: i64 = -1_000_000_000_000_000;

pub open spec fn fx_in_range(x: int) -> bool {
    -(FX_MAX as int) <= x <= FX_MAX as int
}

pub open spec fn fx_clip(x: int) -> int {
    if x > FX_MAX as int {
        FX_MAX as int
    } else if x < -(FX_MAX as int) {
        -(FX_MAX as int)
    } else {
        x
    }
}

pub open spec fn spec_abs(x: int) -> int {
    if x < 0 {
        -x
    } else {
        x
    }
}

pub open spec fn spec_fx_add(a: int, b: int) -> int {
    fx_clip(a + b)
}

pub open spec fn spec_fx_sub(a: int, b: int) -> int {
    fx_clip(a - b)
}

pub open spec fn spec_fx_neg(a: int) -> int {
    fx_clip(-a)
}

/// Truncating fixed-point product: |a|*|b|/FX_ONE with the sign of a*b,
/// clipped to the representable range.
pub open spec fn spec_fx_mul(a: int, b: int) -> int {
    let m = (spec_abs(a) * spec_abs(b)) / (FX_ONE as int);
    if (a < 0) != (b < 0) {
        fx_clip(-m)
    } else {
        fx_clip(m)
    }
}

/// Truncating fixed-point quotient: |a|*FX_ONE/|b| with the sign of a*b,
/// clipped to the representable range.
pub open spec fn spec_fx_div(a: int, b: int) -> int
    recommends
        b != 0,
{
    let m = (spec_abs(a) * (FX_ONE as int)) / spec_abs(b);
    if (a < 0) != (b < 0) {
        fx_clip(-m)
    } else {
        fx_clip(m)
    }
}

pub fn fx_add(a: i64, b: i64) -> (r: i64)
    ensures
        r == spec_fx_add(a as int, b as int),
        fx_in_range(r as int),
{
    let s: i128 = a as i128 + b as i128;
    if s > FX_MAX as i128 {
        FX_MAX
    } else if s < -(FX_MAX as i128) {
        -FX_MAX
    } else {
        s as i64
    }
}

pub fn fx_sub(a: i64, b: i64) -> (r: i64)
    ensures
        r == spec_fx_sub(a as int, b as int),
        fx_in_range(r as int),
{
    let s: i128 = a as i128 - b as i128;
    if s > FX_MAX as i128 {
        FX_MAX
    } else if s < -(FX_MAX as i128) {
        -FX_MAX
    } else {
        s as i64
    }
}

pub fn fx_neg(a: i64) -> (r: i64)
    ensures
        r == spec_fx_neg(a as int),
        fx_in_range(r as int),
{
    let s: i128 = -(a as i128);
    if s > FX_MAX as i128 {
        FX_MAX
    } else if s < -(FX_MAX as i128) {
        -FX_MAX
    } else {
        s as i64
    }
}

fn abs_u128(a: i64) -> (r: u128)
    ensures
        r == spec_abs(a as int),
{
    if a < 0 {
        (-(a as i128)) as u128
    } else {
        a as u128
    }
}

pub fn fx_mul(a: i64, b: i64) -> (r: i64)
    ensures
        r == spec_fx_mul(a as int, b as int),
        fx_in_range(r as int),
{
    let ma: u128 = abs_u128(a);
    let mb: u128 = abs_u128(b);
    proof {
        assert(ma * mb <= u128::MAX as int) by (nonlinear_arith)
            requires
                ma <= 9_223_372_036_854_775_808u128,
                mb <= 9_223_372_036_854_775_808u128,
        ;
    }
    let m: u128 = (ma * mb) / (FX_ONE as u128);
    let mm: u128 = if m > FX_MAX as u128 {
        FX_MAX as u128
    } else {
        m
    };
    if (a < 0) != (b < 0) {
        -(mm as i64)
    } else {
        mm as i64
    }
}

pub fn fx_div(a: i64, b: i64) -> (r: i64)
    requires
        b != 0,
    ensures
        r == spec_fx_div(a as int, b as int),
        fx_in_range(r as int),
{
    let ma: u128 = abs_u128(a);
    let mb: u128 = abs_u128(b);
    let m: u128 = (ma * (FX_ONE as u128)) / mb;
    let mm: u128 = if m > FX_MAX as u128 {
        FX_MAX as u128
    } else {
        m
    };
    if (a < 0) != (b < 0) {
        -(mm as i64)
    } else {
        mm as i64
    }
}

/// Clipped absolute value.
pub open spec fn spec_fx_abs(a: int) -> int {
    fx_clip(spec_abs(a))
}

pub fn fx_abs(a: i64) -> (r: i64)
    ensures
        r == spec_fx_abs(a as int),
        fx_in_range(r as int),
{
    if a < 0 {
        fx_neg(a)
    } else if a > FX_MAX {
        FX_MAX
    } else {
        a
    }
}

/// Clip an already-computed scalar to the representable range.
pub fn fx_clamp(a: i64) -> (r: i64)
    ensures
        r == fx_clip(a as int),
        fx_in_range(r as int),
{
    if a > FX_MAX {
        FX_MAX
    } else if a < -FX_MAX {
        -FX_MAX
    } else {
        a
    }
}

/// Integer square root: the greatest r with r * r <= x.
pub open spec fn spec_isqrt(x: nat) -> nat
    decreases x,
{
    if x == 0 {
        0
    } else {
        let p = spec_isqrt((x - 1) as nat);
        if (p + 1) * (p + 1) <= x {
            p + 1
        } else {
            p
        }
    }
}

pub proof fn lemma_isqrt_bounds(x: nat)
    ensures
        spec_isqrt(x) * spec_isqrt(x) <= x,
        x < (spec_isqrt(x) + 1) * (spec_isqrt(x) + 1),
    decreases x,
{
    if x == 0 {
        assert(spec_isqrt(0) == 0);
        assert((spec_isqrt(x) + 1) * (spec_isqrt(x) + 1) == 1) by (nonlinear_arith)
            requires
                spec_isqrt(x) == 0,
        ;
    } else {
        lemma_isqrt_bounds((x - 1) as nat);
        let p = spec_isqrt((x - 1) as nat);
        assert(p * p <= x - 1);
        assert(x - 1 < (p + 1) * (p + 1));
        if (p + 1) * (p + 1) <= x {
            assert(spec_isqrt(x) == p + 1);
            assert((spec_isqrt(x) + 1) * (spec_isqrt(x) + 1) > (p + 1) * (p + 1)) by (nonlinear_arith)
                requires
                    spec_isqrt(x) == p + 1,
                    p >= 0,
            ;
        } else {
            assert(spec_isqrt(x) == p);
            assert(p * p <= x);
        }
    }
}

pub proof fn lemma_isqrt_unique(x: nat, r: nat)
    requires
        r * r <= x,
        x < (r + 1) * (r + 1),
    ensures
        r == spec_isqrt(x),
{
    lemma_isqrt_bounds(x);
    let s = spec_isqrt(x);
    if r < s {
        assert((r + 1) * (r + 1) <= s * s) by (nonlinear_arith)
            requires
                r + 1 <= s,
        ;
    }
    if s < r {
        assert((s + 1) * (s + 1) <= r * r) by (nonlinear_arith)
            requires
                s + 1 <= r,
        ;
    }
}

/// One more than u64::MAX; the upper end of the square-root search range.
pub const TWO_POW_64: u128 = 18_446_744_073_709_551_616;

pub fn isqrt_u128(x: u128) -> (r: u64)
    ensures
        r == spec_isqrt(x as nat),
{
    let mut lo: u128 = 0;
    let mut hi: u128 = TWO_POW_64;
    proof {
        assert((TWO_POW_64 as int) * (TWO_POW_64 as int) > u128::MAX as int) by (nonlinear_arith);
    }
    while hi - lo > 1
        invariant
            lo < hi <= TWO_POW_64,
            lo * lo <= x as int,
            (x as int) < hi * hi,
        decreases hi - lo,
    {
        let mid: u128 = lo + (hi - lo) / 2;
        proof {
            assert(mid * mid <= u128::MAX as int) by (nonlinear_arith)
                requires
                    mid < TWO_POW_64,
            ;
        }
        if mid * mid <= x {
            lo = mid;
        } else {
            hi = mid;
        }
    }
    proof {
        lemma_isqrt_unique(x as nat, lo as nat);
    }
    lo as u64
}

} // verus!
