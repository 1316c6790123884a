//! Continuous collision pass: a dynamic, awake sphere whose per-step
//! displacement exceeds half its radius is swept (by bisection sampling of
//! its exact contact test) against every collider of other bodies; its
//! step is truncated to the largest sampled fraction found free of impact,
//! and the remaining time is discarded. Fixed and kinematic bodies are
//! never subjected to this pass, and the sweep is implemented for
//! sphere-shaped bodies only: a fast body without a sphere collider takes
//! its full step.

use vstd::prelude::*;
use crate::fx::{FX_ONE, fx_add, fx_mul, spec_fx_add, spec_fx_mul};
use crate::broad::{
    collider_body_index, collider_pos, collider_rot, spec_collider_body_index, spec_collider_pos,
    spec_collider_rot,
};
use crate::narrow::{contact, spec_contact};
use crate::shape::Shape;
use crate::store::{Body, Collider, Slot};
use crate::vec3::{
    Vec3, q_identity, spec_q_identity, spec_v_add, spec_v_len, spec_v_scale, v_add, v_len, v_scale,
};

verus! {

/// Bisection depth of the swept check.
pub const CCD_BISECT_STEPS: u32 = 6;

/// Does a sphere of radius `r` at `center` overlap (penetration > 0) any
/// collider of the first `n` slots that belongs to a body other than `bi`?
pub open spec fn spec_overlap_at(
    bodies: Seq<Slot<Body>>,
    cols: Seq<Slot<Collider>>,
    bi: usize,
    center: Vec3,
    r: i64,
    n: int,
) -> bool
    decreases n
    when 0 <= n <= cols.len()
{
    if n <= 0 {
        false
    } else {
        let prev = spec_overlap_at(bodies, cols, bi, center, r, n - 1);
        let sl = cols[n - 1];
        if sl.val is Some && spec_collider_body_index(bodies, sl.val->0) != Some(bi) {
            let c = sl.val->0;
            let hit = match spec_contact(
                Shape::Sphere { radius: r },
                center,
                spec_q_identity(),
                c.shape,
                spec_collider_pos(bodies, c),
                spec_collider_rot(bodies, c),
            ) {
                Some(t) => t.2 > 0,
                None => false,
            };
            prev || hit
        } else {
            prev
        }
    }
}

fn overlap_at(
    bodies: &Vec<Slot<Body>>,
    cols: &Vec<Slot<Collider>>,
    bi: usize,
    center: Vec3,
    r: i64,
) -> (res: bool)
    ensures
        res == spec_overlap_at(bodies@, cols@, bi, center, r, cols@.len() as int),
{
    let n: usize = cols.len();
    let mut i: usize = 0;
    let mut found: bool = false;
    while i < n
        invariant
            i <= n,
            n == cols@.len(),
            found == spec_overlap_at(bodies@, cols@, bi, center, r, i as int),
        decreases n - i,
    {
        let sl: Slot<Collider> = cols[i];
        match sl.val {
            Some(c) => {
                let owner = collider_body_index(bodies, &c);
                let is_self = match owner {
                    Some(o) => o == bi,
                    None => false,
                };
                if !is_self {
                    match contact(
                        &Shape::Sphere { radius: r },
                        center,
                        q_identity(),
                        &c.shape,
                        collider_pos(bodies, &c),
                        collider_rot(bodies, &c),
                    ) {
                        Some(t) => {
                            if t.2 > 0 {
                                found = true;
                            }
                        },
                        None => {},
                    }
                }
            },
            None => {},
        }
        i = i + 1;
    }
    found
}

/// Bisect for the largest displacement fraction with no sampled impact.
pub open spec fn spec_bisect(
    bodies: Seq<Slot<Body>>,
    cols: Seq<Slot<Collider>>,
    bi: usize,
    base: Vec3,
    disp: Vec3,
    r: i64,
    lo: i64,
    hi: i64,
    k: nat,
) -> i64
    decreases k,
{
    if k == 0 {
        lo
    } else {
        let mid = spec_fx_mul(spec_fx_add(lo as int, hi as int), 500_000) as i64;
        let center = spec_v_add(base, spec_v_scale(disp, mid as int));
        if spec_overlap_at(bodies, cols, bi, center, r, cols.len() as int) {
            spec_bisect(bodies, cols, bi, base, disp, r, lo, mid, (k - 1) as nat)
        } else {
            spec_bisect(bodies, cols, bi, base, disp, r, mid, hi, (k - 1) as nat)
        }
    }
}

/// The first quarter-point of the displacement at which the swept sphere
/// overlaps something, probing t = 1/4, 1/2, 3/4, 1.
pub open spec fn spec_first_hit_probe(
    bodies: Seq<Slot<Body>>,
    cols: Seq<Slot<Collider>>,
    bi: usize,
    base: Vec3,
    disp: Vec3,
    r: i64,
) -> Option<i64> {
    if spec_overlap_at(
        bodies,
        cols,
        bi,
        spec_v_add(base, spec_v_scale(disp, 250_000)),
        r,
        cols.len() as int,
    ) {
        Some(250_000i64)
    } else if spec_overlap_at(
        bodies,
        cols,
        bi,
        spec_v_add(base, spec_v_scale(disp, 500_000)),
        r,
        cols.len() as int,
    ) {
        Some(500_000i64)
    } else if spec_overlap_at(
        bodies,
        cols,
        bi,
        spec_v_add(base, spec_v_scale(disp, 750_000)),
        r,
        cols.len() as int,
    ) {
        Some(750_000i64)
    } else if spec_overlap_at(
        bodies,
        cols,
        bi,
        spec_v_add(base, disp),
        r,
        cols.len() as int,
    ) {
        Some(FX_ONE)
    } else {
        None
    }
}

/// Fraction (in fixed point, 0..=1) of its displacement a body may take
/// this step. Only a dynamic, awake body whose collider is a sphere and
/// whose displacement exceeds half that sphere's radius is truncated; the
/// sweep samples quarter-points of the path and bisects before the first
/// sampled impact.
#[verifier::opaque]
pub open spec fn spec_ccd_factor(
    bodies: Seq<Slot<Body>>,
    cols: Seq<Slot<Collider>>,
    bi: usize,
    sphere_col: Option<(Vec3, i64)>,
    disp: Vec3,
) -> i64 {
    match sphere_col {
        Some(t) => {
            let dl = spec_v_len(disp);
            if dl <= spec_fx_mul(t.1 as int, 500_000) {
                FX_ONE
            } else if spec_overlap_at(bodies, cols, bi, t.0, t.1, cols.len() as int) {
                FX_ONE
            } else {
                match spec_first_hit_probe(bodies, cols, bi, t.0, disp, t.1) {
                    Some(hit) => spec_bisect(
                        bodies,
                        cols,
                        bi,
                        t.0,
                        disp,
                        t.1,
                        (hit - 250_000) as i64,
                        hit,
                        CCD_BISECT_STEPS as nat,
                    ),
                    None => FX_ONE,
                }
            }
        },
        None => FX_ONE,
    }
}

/// The first live sphere collider attached to body `bi`: its world
/// position and radius.
pub open spec fn spec_body_sphere(
    bodies: Seq<Slot<Body>>,
    cols: Seq<Slot<Collider>>,
    bi: usize,
    n: int,
) -> Option<(Vec3, i64)>
    decreases n
    when 0 <= n <= cols.len()
{
    if n <= 0 {
        None
    } else {
        let prev = spec_body_sphere(bodies, cols, bi, n - 1);
        if prev is Some {
            prev
        } else {
            let sl = cols[n - 1];
            if sl.val is Some && spec_collider_body_index(bodies, sl.val->0) == Some(bi) {
                match sl.val->0.shape {
                    Shape::Sphere { radius } => Some(
                        (spec_collider_pos(bodies, sl.val->0), radius),
                    ),
                    _ => None,
                }
            } else {
                None
            }
        }
    }
}

fn body_sphere(bodies: &Vec<Slot<Body>>, cols: &Vec<Slot<Collider>>, bi: usize) -> (res: Option<
    (Vec3, i64),
>)
    ensures
        res == spec_body_sphere(bodies@, cols@, bi, cols@.len() as int),
{
    let n: usize = cols.len();
    let mut i: usize = 0;
    let mut found: Option<(Vec3, i64)> = None;
    while i < n
        invariant
            i <= n,
            n == cols@.len(),
            found == spec_body_sphere(bodies@, cols@, bi, i as int),
        decreases n - i,
    {
        if found.is_none() {
            let sl: Slot<Collider> = cols[i];
            match sl.val {
                Some(c) => {
                    let owner = collider_body_index(bodies, &c);
                    let is_mine = match owner {
                        Some(o) => o == bi,
                        None => false,
                    };
                    if is_mine {
                        match c.shape {
                            Shape::Sphere { radius } => {
                                found = Some((collider_pos(bodies, &c), radius));
                            },
                            _ => {},
                        }
                    }
                },
                None => {},
            }
        }
        i = i + 1;
    }
    found
}

/// Compute the displacement fraction body `bi` may take. The sweep covers
/// dynamic, awake bodies whose first attached collider is a sphere; a
/// body with no sphere collider is not swept and takes its full
/// displacement (the discrete contact margin alone guards it).
pub fn ccd_factor(bodies: &Vec<Slot<Body>>, cols: &Vec<Slot<Collider>>, bi: usize, disp: Vec3) -> (r:
    i64)
    ensures
        r == spec_ccd_factor(
            bodies@,
            cols@,
            bi,
            spec_body_sphere(bodies@, cols@, bi, cols@.len() as int),
            disp,
        ),
{
    proof {
        reveal(spec_ccd_factor);
    }
    match body_sphere(bodies, cols, bi) {
        Some(t) => {
            let dl: i64 = v_len(disp);
            if dl <= fx_mul(t.1, 500_000) {
                return FX_ONE;
            }
            if overlap_at(bodies, cols, bi, t.0, t.1) {
                return FX_ONE;
            }
            let probe: Option<i64> = if overlap_at(
                bodies,
                cols,
                bi,
                v_add(t.0, v_scale(disp, 250_000)),
                t.1,
            ) {
                Some(250_000)
            } else if overlap_at(bodies, cols, bi, v_add(t.0, v_scale(disp, 500_000)), t.1) {
                Some(500_000)
            } else if overlap_at(bodies, cols, bi, v_add(t.0, v_scale(disp, 750_000)), t.1) {
                Some(750_000)
            } else if overlap_at(bodies, cols, bi, v_add(t.0, disp), t.1) {
                Some(FX_ONE)
            } else {
                None
            };
            match probe {
                Some(hit) => {
                    let mut lo: i64 = hit - 250_000;
                    let mut hi: i64 = hit;
                    let mut k: u32 = CCD_BISECT_STEPS;
                    while k > 0
                        invariant
                            spec_bisect(
                                bodies@,
                                cols@,
                                bi,
                                t.0,
                                disp,
                                t.1,
                                (hit - 250_000) as i64,
                                hit,
                                CCD_BISECT_STEPS as nat,
                            ) == spec_bisect(bodies@, cols@, bi, t.0, disp, t.1, lo, hi, k as nat),
                        decreases k,
                    {
                        let mid: i64 = fx_mul(fx_add(lo, hi), 500_000);
                        if overlap_at(bodies, cols, bi, v_add(t.0, v_scale(disp, mid)), t.1) {
                            hi = mid;
                        } else {
                            lo = mid;
                        }
                        k = k - 1;
                    }
                    lo
                },
                None => FX_ONE,
            }
        },
        None => FX_ONE,
    }
}

} // verus!
