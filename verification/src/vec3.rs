//! Three-component vectors and quaternions over saturating fixed-point
//! scalars, with a spec-level mirror for every executable operation.

use vstd::prelude::*;
use crate::fx::{
    FX_MAX, FX_ONE, fx_add, fx_clamp, fx_clip, fx_div, fx_in_range, fx_mul, fx_neg, fx_sub,
    isqrt_u128, spec_abs, spec_fx_add, spec_fx_div, spec_fx_mul, spec_fx_neg, spec_fx_sub,
    spec_isqrt,
};

verus! {

#[derive(Clone, Copy, PartialEq, Eq, Structural, Debug)]
pub struct Vec3 {
    pub x: i64,
    pub y: i64,
    pub z: i64,
}

#[derive(Clone, Copy, PartialEq, Eq, Structural, Debug)]
pub struct Quat {
    pub x: i64,
    pub y: i64,
    pub z: i64,
    pub w: i64,
}

pub open spec fn spec_v_in_range(v: Vec3) -> bool {
    fx_in_range(v.x as int) && fx_in_range(v.y as int) && fx_in_range(v.z as int)
}

pub open spec fn spec_v_zero() -> Vec3 {
    Vec3 { x: 0, y: 0, z: 0 }
}

pub open spec fn spec_v_add(a: Vec3, b: Vec3) -> Vec3 {
    Vec3 {
        x: spec_fx_add(a.x as int, b.x as int) as i64,
        y: spec_fx_add(a.y as int, b.y as int) as i64,
        z: spec_fx_add(a.z as int, b.z as int) as i64,
    }
}

pub open spec fn spec_v_sub(a: Vec3, b: Vec3) -> Vec3 {
    Vec3 {
        x: spec_fx_sub(a.x as int, b.x as int) as i64,
        y: spec_fx_sub(a.y as int, b.y as int) as i64,
        z: spec_fx_sub(a.z as int, b.z as int) as i64,
    }
}

pub open spec fn spec_v_neg(a: Vec3) -> Vec3 {
    Vec3 {
        x: spec_fx_neg(a.x as int) as i64,
        y: spec_fx_neg(a.y as int) as i64,
        z: spec_fx_neg(a.z as int) as i64,
    }
}

pub open spec fn spec_v_scale(a: Vec3, s: int) -> Vec3 {
    Vec3 {
        x: spec_fx_mul(a.x as int, s) as i64,
        y: spec_fx_mul(a.y as int, s) as i64,
        z: spec_fx_mul(a.z as int, s) as i64,
    }
}

pub open spec fn spec_v_dot(a: Vec3, b: Vec3) -> int {
    spec_fx_add(
        spec_fx_add(
            spec_fx_mul(a.x as int, b.x as int),
            spec_fx_mul(a.y as int, b.y as int),
        ),
        spec_fx_mul(a.z as int, b.z as int),
    )
}

pub open spec fn spec_v_cross(a: Vec3, b: Vec3) -> Vec3 {
    Vec3 {
        x: spec_fx_sub(
            spec_fx_mul(a.y as int, b.z as int),
            spec_fx_mul(a.z as int, b.y as int),
        ) as i64,
        y: spec_fx_sub(
            spec_fx_mul(a.z as int, b.x as int),
            spec_fx_mul(a.x as int, b.z as int),
        ) as i64,
        z: spec_fx_sub(
            spec_fx_mul(a.x as int, b.y as int),
            spec_fx_mul(a.y as int, b.x as int),
        ) as i64,
    }
}

/// Exact Euclidean length of the raw components, rounded down, clipped.
pub open spec fn spec_v_len(a: Vec3) -> int {
    fx_clip(
        spec_isqrt(
            ((a.x as int) * (a.x as int) + (a.y as int) * (a.y as int) + (a.z as int)
                * (a.z as int)) as nat,
        ) as int,
    )
}

pub open spec fn spec_v_min(a: Vec3, b: Vec3) -> Vec3 {
    Vec3 {
        x: if a.x <= b.x { a.x } else { b.x },
        y: if a.y <= b.y { a.y } else { b.y },
        z: if a.z <= b.z { a.z } else { b.z },
    }
}

pub open spec fn spec_v_max(a: Vec3, b: Vec3) -> Vec3 {
    Vec3 {
        x: if a.x >= b.x { a.x } else { b.x },
        y: if a.y >= b.y { a.y } else { b.y },
        z: if a.z >= b.z { a.z } else { b.z },
    }
}

pub fn v_zero() -> (r: Vec3)
    ensures
        r == spec_v_zero(),
{
    Vec3 { x: 0, y: 0, z: 0 }
}

pub fn v_new(x: i64, y: i64, z: i64) -> (r: Vec3)
    ensures
        (r == Vec3 { x, y, z }),
{
    Vec3 { x, y, z }
}

pub fn v_add(a: Vec3, b: Vec3) -> (r: Vec3)
    ensures
        r == spec_v_add(a, b),
{
    Vec3 { x: fx_add(a.x, b.x), y: fx_add(a.y, b.y), z: fx_add(a.z, b.z) }
}

pub fn v_sub(a: Vec3, b: Vec3) -> (r: Vec3)
    ensures
        r == spec_v_sub(a, b),
{
    Vec3 { x: fx_sub(a.x, b.x), y: fx_sub(a.y, b.y), z: fx_sub(a.z, b.z) }
}

pub fn v_neg(a: Vec3) -> (r: Vec3)
    ensures
        r == spec_v_neg(a),
{
    Vec3 { x: fx_neg(a.x), y: fx_neg(a.y), z: fx_neg(a.z) }
}

pub fn v_scale(a: Vec3, s: i64) -> (r: Vec3)
    ensures
        r == spec_v_scale(a, s as int),
{
    Vec3 { x: fx_mul(a.x, s), y: fx_mul(a.y, s), z: fx_mul(a.z, s) }
}

pub fn v_dot(a: Vec3, b: Vec3) -> (r: i64)
    ensures
        r as int == spec_v_dot(a, b),
{
    fx_add(fx_add(fx_mul(a.x, b.x), fx_mul(a.y, b.y)), fx_mul(a.z, b.z))
}

pub fn v_cross(a: Vec3, b: Vec3) -> (r: Vec3)
    ensures
        r == spec_v_cross(a, b),
{
    Vec3 {
        x: fx_sub(fx_mul(a.y, b.z), fx_mul(a.z, b.y)),
        y: fx_sub(fx_mul(a.z, b.x), fx_mul(a.x, b.z)),
        z: fx_sub(fx_mul(a.x, b.y), fx_mul(a.y, b.x)),
    }
}

fn sq_u128(a: i64) -> (r: u128)
    ensures
        r == (a as int) * (a as int),
        r <= 85070591730234615865843651857942052864u128,
        fx_in_range(a as int) ==> r <= 1000000000000000000000000000000u128,
{
    let m: u128 = if a < 0 {
        (-(a as i128)) as u128
    } else {
        a as u128
    };
    proof {
        assert(m * m == (a as int) * (a as int) && m * m <= 85070591730234615865843651857942052864u128)
            by (nonlinear_arith)
            requires
                m == spec_abs(a as int),
                m <= 9_223_372_036_854_775_808u128,
        ;
        if fx_in_range(a as int) {
            assert(m * m <= 1000000000000000000000000000000u128) by (nonlinear_arith)
                requires
                    m <= 1_000_000_000_000_000u128,
            ;
        }
    }
    m * m
}

pub fn v_len(a: Vec3) -> (r: i64)
    ensures
        r as int == spec_v_len(a),
{
    let sx: u128 = sq_u128(a.x);
    let sy: u128 = sq_u128(a.y);
    let sz: u128 = sq_u128(a.z);
    let s: u128 = sx + sy + sz;
    let root: u64 = isqrt_u128(s);
    if root > FX_MAX as u64 {
        FX_MAX
    } else {
        root as i64
    }
}

pub fn v_min(a: Vec3, b: Vec3) -> (r: Vec3)
    ensures
        r == spec_v_min(a, b),
{
    Vec3 {
        x: if a.x <= b.x { a.x } else { b.x },
        y: if a.y <= b.y { a.y } else { b.y },
        z: if a.z <= b.z { a.z } else { b.z },
    }
}

pub fn v_max(a: Vec3, b: Vec3) -> (r: Vec3)
    ensures
        r == spec_v_max(a, b),
{
    Vec3 {
        x: if a.x >= b.x { a.x } else { b.x },
        y: if a.y >= b.y { a.y } else { b.y },
        z: if a.z >= b.z { a.z } else { b.z },
    }
}

pub open spec fn spec_q_identity() -> Quat {
    Quat { x: 0, y: 0, z: 0, w: FX_ONE }
}

pub fn q_identity() -> (r: Quat)
    ensures
        r == spec_q_identity(),
{
    Quat { x: 0, y: 0, z: 0, w: FX_ONE }
}

pub open spec fn spec_q_vec_part(q: Quat) -> Vec3 {
    Vec3 { x: q.x, y: q.y, z: q.z }
}

/// Rotate a vector by a (unit) quaternion:
/// t = 2 (qv x v); r = v + w t + qv x t.
pub open spec fn spec_q_rotate(q: Quat, v: Vec3) -> Vec3 {
    let qv = spec_q_vec_part(q);
    let t = spec_v_scale(spec_v_cross(qv, v), 2 * FX_ONE as int);
    spec_v_add(spec_v_add(v, spec_v_scale(t, q.w as int)), spec_v_cross(qv, t))
}

pub fn q_rotate(q: Quat, v: Vec3) -> (r: Vec3)
    ensures
        r == spec_q_rotate(q, v),
{
    let qv = Vec3 { x: q.x, y: q.y, z: q.z };
    let t = v_scale(v_cross(qv, v), 2 * FX_ONE);
    v_add(v_add(v, v_scale(t, q.w)), v_cross(qv, t))
}

/// Rotate by the inverse (conjugate) of a unit quaternion.
pub open spec fn spec_q_conj(q: Quat) -> Quat {
    Quat {
        x: spec_fx_neg(q.x as int) as i64,
        y: spec_fx_neg(q.y as int) as i64,
        z: spec_fx_neg(q.z as int) as i64,
        w: q.w,
    }
}

pub fn q_conj(q: Quat) -> (r: Quat)
    ensures
        r == spec_q_conj(q),
{
    Quat { x: fx_neg(q.x), y: fx_neg(q.y), z: fx_neg(q.z), w: q.w }
}

pub open spec fn spec_q_norm(q: Quat) -> int {
    fx_clip(
        spec_isqrt(
            (fx_clip(q.x as int) * fx_clip(q.x as int) + fx_clip(q.y as int) * fx_clip(q.y as int)
                + fx_clip(q.z as int) * fx_clip(q.z as int) + fx_clip(q.w as int) * fx_clip(
                q.w as int,
            )) as nat,
        ) as int,
    )
}

/// Renormalize a quaternion; a degenerate (zero) quaternion resets to the
/// identity rotation.
pub open spec fn spec_q_normalize(q: Quat) -> Quat {
    let n = spec_q_norm(q);
    if n == 0 {
        spec_q_identity()
    } else {
        Quat {
            x: spec_fx_div(fx_clip(q.x as int), n) as i64,
            y: spec_fx_div(fx_clip(q.y as int), n) as i64,
            z: spec_fx_div(fx_clip(q.z as int), n) as i64,
            w: spec_fx_div(fx_clip(q.w as int), n) as i64,
        }
    }
}

pub fn q_normalize(q: Quat) -> (r: Quat)
    ensures
        r == spec_q_normalize(q),
{
    let cx: i64 = fx_clamp(q.x);
    let cy: i64 = fx_clamp(q.y);
    let cz: i64 = fx_clamp(q.z);
    let cw: i64 = fx_clamp(q.w);
    let s: u128 = sq_u128(cx) + sq_u128(cy) + sq_u128(cz) + sq_u128(cw);
    let root: u64 = isqrt_u128(s);
    let n: i64 = if root > FX_MAX as u64 {
        FX_MAX
    } else {
        root as i64
    };
    if n == 0 {
        q_identity()
    } else {
        Quat { x: fx_div(cx, n), y: fx_div(cy, n), z: fx_div(cz, n), w: fx_div(cw, n) }
    }
}

/// Hamilton product of two quaternions (clipped componentwise).
pub open spec fn spec_q_mul(a: Quat, b: Quat) -> Quat {
    Quat {
        x: spec_fx_add(
            spec_fx_sub(
                spec_fx_add(
                    spec_fx_mul(a.w as int, b.x as int),
                    spec_fx_mul(a.x as int, b.w as int),
                ),
                spec_fx_mul(a.z as int, b.y as int),
            ),
            spec_fx_mul(a.y as int, b.z as int),
        ) as i64,
        y: spec_fx_add(
            spec_fx_sub(
                spec_fx_add(
                    spec_fx_mul(a.w as int, b.y as int),
                    spec_fx_mul(a.y as int, b.w as int),
                ),
                spec_fx_mul(a.x as int, b.z as int),
            ),
            spec_fx_mul(a.z as int, b.x as int),
        ) as i64,
        z: spec_fx_add(
            spec_fx_sub(
                spec_fx_add(
                    spec_fx_mul(a.w as int, b.z as int),
                    spec_fx_mul(a.z as int, b.w as int),
                ),
                spec_fx_mul(a.y as int, b.x as int),
            ),
            spec_fx_mul(a.x as int, b.y as int),
        ) as i64,
        w: spec_fx_sub(
            spec_fx_sub(
                spec_fx_sub(
                    spec_fx_mul(a.w as int, b.w as int),
                    spec_fx_mul(a.x as int, b.x as int),
                ),
                spec_fx_mul(a.y as int, b.y as int),
            ),
            spec_fx_mul(a.z as int, b.z as int),
        ) as i64,
    }
}

pub fn q_mul(a: Quat, b: Quat) -> (r: Quat)
    ensures
        r == spec_q_mul(a, b),
{
    Quat {
        x: fx_add(
            fx_sub(fx_add(fx_mul(a.w, b.x), fx_mul(a.x, b.w)), fx_mul(a.z, b.y)),
            fx_mul(a.y, b.z),
        ),
        y: fx_add(
            fx_sub(fx_add(fx_mul(a.w, b.y), fx_mul(a.y, b.w)), fx_mul(a.x, b.z)),
            fx_mul(a.z, b.x),
        ),
        z: fx_add(
            fx_sub(fx_add(fx_mul(a.w, b.z), fx_mul(a.z, b.w)), fx_mul(a.y, b.x)),
            fx_mul(a.x, b.y),
        ),
        w: fx_sub(
            fx_sub(fx_sub(fx_mul(a.w, b.w), fx_mul(a.x, b.x)), fx_mul(a.y, b.y)),
            fx_mul(a.z, b.z),
        ),
    }
}

} // verus!
