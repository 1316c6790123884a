//! Integrator: applies gravity to velocities before the solve, then
//! advances positions by velocity times the fixed timestep (truncated by
//! the continuous-collision pass where it applies), integrates
//! orientations from angular velocity with renormalization, and applies
//! the solver's positional correction. Every written quantity saturates,
//! which is the fixed-point analogue of clamping non-finite state.

use vstd::prelude::*;
use crate::ccd::{ccd_factor, spec_body_sphere, spec_ccd_factor};
use crate::fx::{
    fx_add, fx_div, fx_mul, fx_sub, spec_fx_add, spec_fx_div, spec_fx_mul, spec_fx_sub,
};
use crate::narrow::Manifold;
use crate::solver::{spec_side_inv_mass, side_inv_mass};
use crate::store::{Body, BodyKind, Collider, Slot};
use crate::vec3::{
    Quat, Vec3, q_mul, q_normalize, spec_q_mul, spec_q_normalize, spec_v_add, spec_v_scale,
    spec_v_zero, v_add, v_scale,
};

verus! {

/// Positional correction factor per step (Baumgarte-style, applied to
/// positions directly so no energy is injected into velocities).
pub const CORRECTION_FACTOR: i64 = 800_000;

/// Penetration below this depth is left alone.
pub const PENETRATION_SLOP: i64 = 5_000;

/// Largest positional correction applied in one step.
pub const MAX_CORRECTION: i64 = 200_000;

/// Velocities after gravity: every dynamic, awake body gains gravity * dt.
pub open spec fn spec_gravity_upto(
    bodies: Seq<Slot<Body>>,
    gravity: Vec3,
    dt: i64,
    n: int,
) -> Seq<Slot<Body>>
    decreases n
    when 0 <= n <= bodies.len()
{
    if n <= 0 {
        bodies
    } else {
        let prev = spec_gravity_upto(bodies, gravity, dt, n - 1);
        let sl = bodies[n - 1];
        if sl.val is Some && sl.val->0.kind is Dynamic && !sl.val->0.sleeping {
            let b = sl.val->0;
            prev.update(
                n - 1,
                Slot {
                    generation: sl.generation,
                    val: Some(
                        Body {
                            lin_vel: spec_v_add(b.lin_vel, spec_v_scale(gravity, dt as int)),
                            ..b
                        },
                    ),
                },
            )
        } else {
            prev
        }
    }
}

pub fn apply_gravity(bodies: &mut Vec<Slot<Body>>, gravity: Vec3, dt: i64)
    ensures
        final(bodies)@ == spec_gravity_upto(old(bodies)@, gravity, dt, old(bodies)@.len() as int),
{
    let n: usize = bodies.len();
    let mut i: usize = 0;
    while i < n
        invariant
            i <= n,
            n == old(bodies)@.len(),
            bodies@.len() == n,
            bodies@ == spec_gravity_upto(old(bodies)@, gravity, dt, i as int),
            forall|j: int| i <= j < n ==> bodies@[j] == old(bodies)@[j],
        decreases n - i,
    {
        let sl: Slot<Body> = bodies[i];
        match sl.val {
            Some(b) => {
                if matches!(b.kind, BodyKind::Dynamic) && !b.sleeping {
                    let nb = Body { lin_vel: v_add(b.lin_vel, v_scale(gravity, dt)), ..b };
                    bodies[i] = Slot { generation: sl.generation, val: Some(nb) };
                }
            },
            None => {},
        }
        i = i + 1;
    }
}

/// Add `dp` to the position of a dynamic, awake body.
pub open spec fn spec_side_add_pos(
    bodies: Seq<Slot<Body>>,
    idx: Option<usize>,
    dp: Vec3,
) -> Seq<Slot<Body>> {
    match idx {
        Some(i) => if 0 <= i < bodies.len() && bodies[i as int].val is Some {
            let b = bodies[i as int].val->0;
            if b.kind is Dynamic && !b.sleeping {
                bodies.update(
                    i as int,
                    Slot {
                        generation: bodies[i as int].generation,
                        val: Some(Body { pos: spec_v_add(b.pos, dp), ..b }),
                    },
                )
            } else {
                bodies
            }
        } else {
            bodies
        },
        None => bodies,
    }
}

fn side_add_pos(bodies: &mut Vec<Slot<Body>>, idx: Option<usize>, dp: Vec3)
    ensures
        final(bodies)@ == spec_side_add_pos(old(bodies)@, idx, dp),
{
    match idx {
        Some(i) => {
            if i < bodies.len() {
                let sl: Slot<Body> = bodies[i];
                match sl.val {
                    Some(b) => {
                        if matches!(b.kind, BodyKind::Dynamic) && !b.sleeping {
                            let nb = Body { pos: v_add(b.pos, dp), ..b };
                            bodies[i] = Slot { generation: sl.generation, val: Some(nb) };
                        }
                    },
                    None => {},
                }
            }
        },
        None => {},
    }
}

/// One manifold's positional correction: residual overlap beyond the slop
/// is pushed out along the normal (clamped), split between the two sides
/// by inverse mass.
#[verifier::opaque]
pub open spec fn spec_apply_correction(bodies: Seq<Slot<Body>>, m: Manifold) -> Seq<Slot<Body>> {
    let inva = spec_side_inv_mass(bodies, m.body_a);
    let invb = spec_side_inv_mass(bodies, m.body_b);
    let inv_sum = spec_fx_add(inva as int, invb as int);
    let over = spec_fx_sub(m.pen as int, PENETRATION_SLOP as int);
    if inv_sum <= 0 || over <= 0 {
        bodies
    } else {
        let raw = spec_fx_mul(CORRECTION_FACTOR as int, over);
        let corr = if raw <= MAX_CORRECTION as int {
            raw
        } else {
            MAX_CORRECTION as int
        };
        let ca = spec_fx_div(spec_fx_mul(corr, inva as int), inv_sum);
        let cb = spec_fx_div(spec_fx_mul(corr, invb as int), inv_sum);
        let b1 = spec_side_add_pos(bodies, m.body_a, spec_v_scale(m.normal, ca));
        spec_side_add_pos(b1, m.body_b, spec_v_scale(m.normal, spec_fx_mul(cb, -1_000_000)))
    }
}

fn apply_correction(bodies: &mut Vec<Slot<Body>>, m: &Manifold)
    ensures
        final(bodies)@ == spec_apply_correction(old(bodies)@, *m),
{
    proof {
        reveal(spec_apply_correction);
    }
    let inva: i64 = side_inv_mass(bodies, m.body_a);
    let invb: i64 = side_inv_mass(bodies, m.body_b);
    let inv_sum: i64 = fx_add(inva, invb);
    let over: i64 = fx_sub(m.pen, PENETRATION_SLOP);
    if inv_sum <= 0 || over <= 0 {
        return ;
    }
    let raw: i64 = fx_mul(CORRECTION_FACTOR, over);
    let corr: i64 = if raw <= MAX_CORRECTION {
        raw
    } else {
        MAX_CORRECTION
    };
    let ca: i64 = fx_div(fx_mul(corr, inva), inv_sum);
    let cb: i64 = fx_div(fx_mul(corr, invb), inv_sum);
    side_add_pos(bodies, m.body_a, v_scale(m.normal, ca));
    side_add_pos(bodies, m.body_b, v_scale(m.normal, fx_mul(cb, -1_000_000)));
}

/// Positional corrections of the first `k` manifolds, in order.
pub open spec fn spec_corrections_upto(
    bodies: Seq<Slot<Body>>,
    ms: Seq<Manifold>,
    k: int,
) -> Seq<Slot<Body>>
    decreases k
    when 0 <= k <= ms.len()
{
    if k <= 0 {
        bodies
    } else {
        spec_apply_correction(spec_corrections_upto(bodies, ms, k - 1), ms[k - 1])
    }
}

pub fn apply_corrections(bodies: &mut Vec<Slot<Body>>, ms: &Vec<Manifold>)
    ensures
        final(bodies)@ == spec_corrections_upto(old(bodies)@, ms@, ms@.len() as int),
{
    let n: usize = ms.len();
    let mut k: usize = 0;
    while k < n
        invariant
            k <= n,
            n == ms@.len(),
            bodies@ == spec_corrections_upto(old(bodies)@, ms@, k as int),
        decreases n - k,
    {
        apply_correction(bodies, &ms[k]);
        k = k + 1;
    }
}

/// Orientation advanced by angular velocity over dt: first-order
/// quaternion update q += (dt/2) (omega ⊗ q), renormalized. A body with no
/// angular velocity, or a zero timestep, keeps its orientation exactly.
pub open spec fn spec_integrate_rot(q: Quat, w: Vec3, dt: i64) -> Quat {
    if (w == spec_v_zero()) || dt == 0 {
        q
    } else {
        let wq = Quat { x: w.x, y: w.y, z: w.z, w: 0 };
        let dq = spec_q_mul(wq, q);
        let h = spec_fx_mul(dt as int, 500_000);
        spec_q_normalize(
            Quat {
                x: spec_fx_add(q.x as int, spec_fx_mul(dq.x as int, h)) as i64,
                y: spec_fx_add(q.y as int, spec_fx_mul(dq.y as int, h)) as i64,
                z: spec_fx_add(q.z as int, spec_fx_mul(dq.z as int, h)) as i64,
                w: spec_fx_add(q.w as int, spec_fx_mul(dq.w as int, h)) as i64,
            },
        )
    }
}

fn integrate_rot(q: Quat, w: Vec3, dt: i64) -> (r: Quat)
    ensures
        r == spec_integrate_rot(q, w, dt),
{
    if (w.x == 0 && w.y == 0 && w.z == 0) || dt == 0 {
        q
    } else {
        let wq = Quat { x: w.x, y: w.y, z: w.z, w: 0 };
        let dq = q_mul(wq, q);
        let h: i64 = fx_mul(dt, 500_000);
        q_normalize(
            Quat {
                x: fx_add(q.x, fx_mul(dq.x, h)),
                y: fx_add(q.y, fx_mul(dq.y, h)),
                z: fx_add(q.z, fx_mul(dq.z, h)),
                w: fx_add(q.w, fx_mul(dq.w, h)),
            },
        )
    }
}

/// Positions after one step: fixed and sleeping bodies stay; kinematic
/// bodies advance by velocity * dt; dynamic bodies advance by velocity *
/// dt scaled by their continuous-collision factor; orientations integrate
/// from angular velocity.
pub open spec fn spec_positions_upto(
    bodies: Seq<Slot<Body>>,
    cols: Seq<Slot<Collider>>,
    dt: i64,
    n: int,
) -> Seq<Slot<Body>>
    decreases n
    when 0 <= n <= bodies.len()
{
    if n <= 0 {
        bodies
    } else {
        let prev = spec_positions_upto(bodies, cols, dt, n - 1);
        let sl = prev[n - 1];
        if sl.val is Some {
            let b = sl.val->0;
            if b.kind is Fixed || b.sleeping {
                prev
            } else {
                let disp = spec_v_scale(b.lin_vel, dt as int);
                let eff = if b.kind is Dynamic {
                    let f = spec_ccd_factor(
                        prev,
                        cols,
                        (n - 1) as usize,
                        spec_body_sphere(prev, cols, (n - 1) as usize, cols.len() as int),
                        disp,
                    );
                    spec_v_scale(disp, f as int)
                } else {
                    disp
                };
                prev.update(
                    n - 1,
                    Slot {
                        generation: sl.generation,
                        val: Some(
                            Body {
                                pos: spec_v_add(b.pos, eff),
                                rot: spec_integrate_rot(b.rot, b.ang_vel, dt),
                                ..b
                            },
                        ),
                    },
                )
            }
        } else {
            prev
        }
    }
}

pub fn integrate_positions(bodies: &mut Vec<Slot<Body>>, cols: &Vec<Slot<Collider>>, dt: i64)
    ensures
        final(bodies)@ == spec_positions_upto(old(bodies)@, cols@, dt, old(bodies)@.len() as int),
{
    let n: usize = bodies.len();
    let mut i: usize = 0;
    while i < n
        invariant
            i <= n,
            n == old(bodies)@.len(),
            bodies@.len() == n,
            bodies@ == spec_positions_upto(old(bodies)@, cols@, dt, i as int),
            forall|j: int| i <= j < n ==> bodies@[j] == old(bodies)@[j],
        decreases n - i,
    {
        let sl: Slot<Body> = bodies[i];
        match sl.val {
            Some(b) => {
                if !(matches!(b.kind, BodyKind::Fixed) || b.sleeping) {
                    let disp = v_scale(b.lin_vel, dt);
                    let eff = if matches!(b.kind, BodyKind::Dynamic) {
                        let f: i64 = ccd_factor(bodies, cols, i, disp);
                        v_scale(disp, f)
                    } else {
                        disp
                    };
                    let nb = Body {
                        pos: v_add(b.pos, eff),
                        rot: integrate_rot(b.rot, b.ang_vel, dt),
                        ..b
                    };
                    bodies[i] = Slot { generation: sl.generation, val: Some(nb) };
                }
            },
            None => {},
        }
        i = i + 1;
    }
}

} // verus!
