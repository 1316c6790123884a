//! Constraint solver: sequential impulses over the contact manifolds,
//! iterated a fixed number of times. Non-penetration impulses restore the
//! restitution target velocity; friction impulses are bounded by the
//! accumulated normal impulse times the combined friction coefficient.
//! Fixed and kinematic bodies have infinite effective mass and never
//! receive impulses; sleeping bodies are excluded unless a contact woke
//! them beforehand.

use vstd::prelude::*;
use crate::fx::{
    fx_add, fx_div, fx_mul, fx_sub, spec_fx_add, spec_fx_div, spec_fx_mul, spec_fx_sub,
};
use crate::narrow::Manifold;
use crate::store::{Body, BodyKind, Slot};
use crate::vec3::{
    Vec3, spec_v_add, spec_v_dot, spec_v_len, spec_v_scale, spec_v_sub, spec_v_zero, v_add, v_dot,
    v_len, v_scale, v_sub, v_zero,
};

verus! {

/// Linear velocity a manifold side contributes: the body's velocity, or
/// zero for a side with no attached body.
pub open spec fn spec_side_vel(bodies: Seq<Slot<Body>>, idx: Option<usize>) -> Vec3 {
    match idx {
        Some(i) => if 0 <= i < bodies.len() && bodies[i as int].val is Some {
            bodies[i as int].val->0.lin_vel
        } else {
            spec_v_zero()
        },
        None => spec_v_zero(),
    }
}

/// Effective inverse mass of a manifold side: the body's inverse mass when
/// it is a dynamic, awake body; 0 (infinite mass) otherwise.
pub open spec fn spec_side_inv_mass(bodies: Seq<Slot<Body>>, idx: Option<usize>) -> i64 {
    match idx {
        Some(i) => if 0 <= i < bodies.len() && bodies[i as int].val is Some {
            let b = bodies[i as int].val->0;
            if b.kind is Dynamic && !b.sleeping {
                b.inv_mass
            } else {
                0
            }
        } else {
            0
        },
        None => 0,
    }
}

/// Add `dv` to the linear velocity of a dynamic, awake body; any other
/// side is left untouched.
pub open spec fn spec_side_add_vel(
    bodies: Seq<Slot<Body>>,
    idx: Option<usize>,
    dv: Vec3,
) -> Seq<Slot<Body>> {
    match idx {
        Some(i) => if 0 <= i < bodies.len() && bodies[i as int].val is Some {
            let b = bodies[i as int].val->0;
            if b.kind is Dynamic && !b.sleeping {
                bodies.update(
                    i as int,
                    Slot {
                        generation: bodies[i as int].generation,
                        val: Some(Body { lin_vel: spec_v_add(b.lin_vel, dv), ..b }),
                    },
                )
            } else {
                bodies
            }
        } else {
            bodies
        },
        None => bodies,
    }
}

fn side_vel(bodies: &Vec<Slot<Body>>, idx: Option<usize>) -> (r: Vec3)
    ensures
        r == spec_side_vel(bodies@, idx),
{
    match idx {
        Some(i) => {
            if i < bodies.len() {
                match bodies[i].val {
                    Some(b) => b.lin_vel,
                    None => v_zero(),
                }
            } else {
                v_zero()
            }
        },
        None => v_zero(),
    }
}

pub fn side_inv_mass(bodies: &Vec<Slot<Body>>, idx: Option<usize>) -> (r: i64)
    ensures
        r == spec_side_inv_mass(bodies@, idx),
{
    match idx {
        Some(i) => {
            if i < bodies.len() {
                match bodies[i].val {
                    Some(b) => {
                        if matches!(b.kind, BodyKind::Dynamic) && !b.sleeping {
                            b.inv_mass
                        } else {
                            0
                        }
                    },
                    None => 0,
                }
            } else {
                0
            }
        },
        None => 0,
    }
}

fn side_add_vel(bodies: &mut Vec<Slot<Body>>, idx: Option<usize>, dv: Vec3)
    ensures
        final(bodies)@ == spec_side_add_vel(old(bodies)@, idx, dv),
{
    match idx {
        Some(i) => {
            if i < bodies.len() {
                let sl: Slot<Body> = bodies[i];
                match sl.val {
                    Some(b) => {
                        if matches!(b.kind, BodyKind::Dynamic) && !b.sleeping {
                            let nb = Body { lin_vel: v_add(b.lin_vel, dv), ..b };
                            bodies[i] = Slot { generation: sl.generation, val: Some(nb) };
                        }
                    },
                    None => {},
                }
            }
        },
        None => {},
    }
}

/// One sequential-impulse application of one manifold: a normal impulse
/// toward the restitution target velocity, then a friction impulse against
/// the tangential relative velocity, Coulomb-bounded by the accumulated
/// normal impulse. Returns the updated accumulators (normal, tangent).
#[verifier::opaque]
pub open spec fn spec_apply_contact(
    bodies: Seq<Slot<Body>>,
    m: Manifold,
    acc: (i64, i64),
) -> (Seq<Slot<Body>>, (i64, i64)) {
    let inva = spec_side_inv_mass(bodies, m.body_a);
    let invb = spec_side_inv_mass(bodies, m.body_b);
    let inv_sum = spec_fx_add(inva as int, invb as int);
    if inv_sum <= 0 {
        (bodies, acc)
    } else {
        let rel = spec_v_sub(spec_side_vel(bodies, m.body_a), spec_side_vel(bodies, m.body_b));
        let vn = spec_v_dot(rel, m.normal);
        let dvn = spec_fx_sub(m.target_vel as int, vn);
        let jn: int = if dvn > 0 {
            spec_fx_div(dvn, inv_sum)
        } else {
            0
        };
        let accn = spec_fx_add(acc.0 as int, jn);
        let b1 = spec_side_add_vel(bodies, m.body_a, spec_v_scale(m.normal, spec_fx_mul(jn, inva as int)));
        let b2 = spec_side_add_vel(
            b1,
            m.body_b,
            spec_v_scale(m.normal, spec_fx_mul(spec_fx_mul(jn, invb as int), -1_000_000)),
        );
        let rel2 = spec_v_sub(spec_side_vel(b2, m.body_a), spec_side_vel(b2, m.body_b));
        let vn2 = spec_v_dot(rel2, m.normal);
        let vt = spec_v_sub(rel2, spec_v_scale(m.normal, vn2));
        let vtl = spec_v_len(vt);
        if vtl > 0 {
            let jt_want = spec_fx_div(vtl, inv_sum);
            let cap = spec_fx_sub(spec_fx_mul(m.friction as int, accn), acc.1 as int);
            let jt = if jt_want <= cap {
                jt_want
            } else if cap > 0 {
                cap
            } else {
                0
            };
            let acct = spec_fx_add(acc.1 as int, jt);
            let tdir = Vec3 {
                x: spec_fx_div(vt.x as int, vtl) as i64,
                y: spec_fx_div(vt.y as int, vtl) as i64,
                z: spec_fx_div(vt.z as int, vtl) as i64,
            };
            let b3 = spec_side_add_vel(
                b2,
                m.body_a,
                spec_v_scale(tdir, spec_fx_mul(spec_fx_mul(jt, inva as int), -1_000_000)),
            );
            let b4 = spec_side_add_vel(b3, m.body_b, spec_v_scale(tdir, spec_fx_mul(jt, invb as int)));
            (b4, (accn as i64, acct as i64))
        } else {
            (b2, (accn as i64, acc.1))
        }
    }
}

fn apply_contact(bodies: &mut Vec<Slot<Body>>, m: &Manifold, acc: (i64, i64)) -> (r: (i64, i64))
    ensures
        (final(bodies)@, r) == spec_apply_contact(old(bodies)@, *m, acc),
{
    proof {
        reveal(spec_apply_contact);
    }
    let inva: i64 = side_inv_mass(bodies, m.body_a);
    let invb: i64 = side_inv_mass(bodies, m.body_b);
    let inv_sum: i64 = fx_add(inva, invb);
    if inv_sum <= 0 {
        return acc;
    }
    let rel = v_sub(side_vel(bodies, m.body_a), side_vel(bodies, m.body_b));
    let vn: i64 = v_dot(rel, m.normal);
    let dvn: i64 = fx_sub(m.target_vel, vn);
    let jn: i64 = if dvn > 0 {
        fx_div(dvn, inv_sum)
    } else {
        0
    };
    let accn: i64 = fx_add(acc.0, jn);
    side_add_vel(bodies, m.body_a, v_scale(m.normal, fx_mul(jn, inva)));
    side_add_vel(bodies, m.body_b, v_scale(m.normal, fx_mul(fx_mul(jn, invb), -1_000_000)));
    let rel2 = v_sub(side_vel(bodies, m.body_a), side_vel(bodies, m.body_b));
    let vn2: i64 = v_dot(rel2, m.normal);
    let vt = v_sub(rel2, v_scale(m.normal, vn2));
    let vtl: i64 = v_len(vt);
    if vtl > 0 {
        let jt_want: i64 = fx_div(vtl, inv_sum);
        let cap: i64 = fx_sub(fx_mul(m.friction, accn), acc.1);
        let jt: i64 = if jt_want <= cap {
            jt_want
        } else if cap > 0 {
            cap
        } else {
            0
        };
        let acct: i64 = fx_add(acc.1, jt);
        let tdir = Vec3 { x: fx_div(vt.x, vtl), y: fx_div(vt.y, vtl), z: fx_div(vt.z, vtl) };
        side_add_vel(bodies, m.body_a, v_scale(tdir, fx_mul(fx_mul(jt, inva), -1_000_000)));
        side_add_vel(bodies, m.body_b, v_scale(tdir, fx_mul(jt, invb)));
        (accn, acct)
    } else {
        (accn, acc.1)
    }
}

/// One pass over the first `k` manifolds.
pub open spec fn spec_solve_pass(
    bodies: Seq<Slot<Body>>,
    ms: Seq<Manifold>,
    accs: Seq<(i64, i64)>,
    k: int,
) -> (Seq<Slot<Body>>, Seq<(i64, i64)>)
    decreases k
    when 0 <= k <= ms.len() && accs.len() == ms.len()
{
    if k <= 0 {
        (bodies, accs)
    } else {
        let prev = spec_solve_pass(bodies, ms, accs, k - 1);
        let step = spec_apply_contact(prev.0, ms[k - 1], prev.1[k - 1]);
        (step.0, prev.1.update(k - 1, step.1))
    }
}

/// `iters` passes of the sequential-impulse solver.
pub open spec fn spec_solve_iters(
    bodies: Seq<Slot<Body>>,
    ms: Seq<Manifold>,
    accs: Seq<(i64, i64)>,
    iters: nat,
) -> (Seq<Slot<Body>>, Seq<(i64, i64)>)
    decreases iters
    when accs.len() == ms.len()
{
    if iters == 0 {
        (bodies, accs)
    } else {
        let prev = spec_solve_iters(bodies, ms, accs, (iters - 1) as nat);
        spec_solve_pass(prev.0, ms, prev.1, ms.len() as int)
    }
}

/// The whole velocity solve: zeroed accumulators, then `iters` passes.
pub open spec fn spec_solve(
    bodies: Seq<Slot<Body>>,
    ms: Seq<Manifold>,
    iters: nat,
) -> Seq<Slot<Body>> {
    spec_solve_iters(bodies, ms, Seq::new(ms.len(), |k: int| (0i64, 0i64)), iters).0
}

pub fn solve(bodies: &mut Vec<Slot<Body>>, ms: &Vec<Manifold>, iters: u32)
    ensures
        final(bodies)@ == spec_solve(old(bodies)@, ms@, iters as nat),
{
    let n: usize = ms.len();
    let mut accs: Vec<(i64, i64)> = Vec::new();
    let mut z: usize = 0;
    while z < n
        invariant
            z <= n,
            accs@.len() == z,
            forall|k: int| 0 <= k < z ==> accs@[k] == (0i64, 0i64),
        decreases n - z,
    {
        accs.push((0, 0));
        z = z + 1;
    }
    proof {
        assert(accs@ =~= Seq::new(ms@.len(), |k: int| (0i64, 0i64)));
    }
    let mut it: u32 = 0;
    while it < iters
        invariant
            it <= iters,
            n == ms@.len(),
            accs@.len() == n,
            (bodies@, accs@) == spec_solve_iters(
                old(bodies)@,
                ms@,
                Seq::new(ms@.len(), |k: int| (0i64, 0i64)),
                it as nat,
            ),
        decreases iters - it,
    {
        let mut k: usize = 0;
        let ghost pass_start_bodies = bodies@;
        let ghost pass_start_accs = accs@;
        while k < n
            invariant
                k <= n,
                n == ms@.len(),
                accs@.len() == n,
                pass_start_accs.len() == n,
                (pass_start_bodies, pass_start_accs) == spec_solve_iters(
                    old(bodies)@,
                    ms@,
                    Seq::new(ms@.len(), |q: int| (0i64, 0i64)),
                    it as nat,
                ),
                (bodies@, accs@) == spec_solve_pass(pass_start_bodies, ms@, pass_start_accs, k as int),
                forall|j: int| k <= j < n ==> accs@[j] == pass_start_accs[j],
            decreases n - k,
        {
            let a: (i64, i64) = accs[k];
            let na = apply_contact(bodies, &ms[k], a);
            accs[k] = na;
            k = k + 1;
        }
        it = it + 1;
    }
}

} // verus!
