//! Island and activity management. Each body carries a rolling count of
//! consecutive low-kinetic-energy steps; bodies connected through active
//! contacts or joints form islands, and a whole island goes to sleep only
//! when every member has been calm long enough. An island with any active
//! member stays awake, which also wakes sleeping members touched by a new
//! contact. Fixed bodies are outside the activity concept altogether.

use vstd::prelude::*;
use crate::fx::{fx_add, spec_fx_add};
use crate::narrow::Manifold;
use crate::store::{Body, BodyKind, Joint, Slot, spec_slot_valid};
use crate::vec3::{spec_v_dot, spec_v_zero, v_dot, v_zero};

verus! {

/// Squared-speed threshold under which a body counts as calm.
pub const SLEEP_ENERGY_THRESHOLD: i64 = 2_500;

/// Consecutive calm steps before a body is eligible to sleep.
pub const SLEEP_STEPS_REQUIRED: u32 = 30;

/// Kinetic-energy measure: |v|^2 + |w|^2 (mass left out; only the
/// threshold comparison matters).
pub open spec fn spec_body_energy(b: Body) -> int {
    spec_fx_add(spec_v_dot(b.lin_vel, b.lin_vel), spec_v_dot(b.ang_vel, b.ang_vel))
}

/// Update the calm-step counters: every live non-fixed body's counter
/// rises (saturating at the required count) while its energy is below the
/// threshold, and resets otherwise.
pub open spec fn spec_energy_upto(bodies: Seq<Slot<Body>>, n: int) -> Seq<Slot<Body>>
    decreases n
    when 0 <= n <= bodies.len()
{
    if n <= 0 {
        bodies
    } else {
        let prev = spec_energy_upto(bodies, n - 1);
        let sl = bodies[n - 1];
        if sl.val is Some && !(sl.val->0.kind is Fixed) {
            let b = sl.val->0;
            let calm = spec_body_energy(b) < SLEEP_ENERGY_THRESHOLD as int;
            let steps: u32 = if calm {
                if b.low_energy_steps < SLEEP_STEPS_REQUIRED {
                    (b.low_energy_steps + 1) as u32
                } else {
                    b.low_energy_steps
                }
            } else {
                0
            };
            prev.update(
                n - 1,
                Slot { generation: sl.generation, val: Some(Body { low_energy_steps: steps, ..b }) },
            )
        } else {
            prev
        }
    }
}

pub fn update_energy(bodies: &mut Vec<Slot<Body>>)
    ensures
        final(bodies)@ == spec_energy_upto(old(bodies)@, old(bodies)@.len() as int),
{
    let n: usize = bodies.len();
    let mut i: usize = 0;
    while i < n
        invariant
            i <= n,
            n == old(bodies)@.len(),
            bodies@.len() == n,
            bodies@ == spec_energy_upto(old(bodies)@, i as int),
            forall|j: int| i <= j < n ==> bodies@[j] == old(bodies)@[j],
        decreases n - i,
    {
        let sl: Slot<Body> = bodies[i];
        match sl.val {
            Some(b) => {
                if !matches!(b.kind, BodyKind::Fixed) {
                    let e: i64 = fx_add(v_dot(b.lin_vel, b.lin_vel), v_dot(b.ang_vel, b.ang_vel));
                    let steps: u32 = if e < SLEEP_ENERGY_THRESHOLD {
                        if b.low_energy_steps < SLEEP_STEPS_REQUIRED {
                            b.low_energy_steps + 1
                        } else {
                            b.low_energy_steps
                        }
                    } else {
                        0
                    };
                    let nb = Body { low_energy_steps: steps, ..b };
                    bodies[i] = Slot { generation: sl.generation, val: Some(nb) };
                }
            },
            None => {},
        }
        i = i + 1;
    }
}

/// Wake a sleeping dynamic body that a manifold links to an awake,
/// non-fixed body: a new contact wakes what it touches, before the solve.
pub open spec fn spec_side_is_active(bodies: Seq<Slot<Body>>, idx: Option<usize>) -> bool {
    match idx {
        Some(i) => 0 <= i < bodies.len() && bodies[i as int].val is Some && !(bodies[
            i as int
        ].val->0.kind is Fixed) && !bodies[i as int].val->0.sleeping,
        None => false,
    }
}

pub open spec fn spec_wake_side(bodies: Seq<Slot<Body>>, idx: Option<usize>) -> Seq<Slot<Body>> {
    match idx {
        Some(i) => if 0 <= i < bodies.len() && bodies[i as int].val is Some && bodies[
            i as int
        ].val->0.kind is Dynamic && bodies[i as int].val->0.sleeping {
            let b = bodies[i as int].val->0;
            bodies.update(
                i as int,
                Slot {
                    generation: bodies[i as int].generation,
                    val: Some(Body { sleeping: false, low_energy_steps: 0, ..b }),
                },
            )
        } else {
            bodies
        },
        None => bodies,
    }
}

pub open spec fn spec_wake_upto(bodies: Seq<Slot<Body>>, ms: Seq<Manifold>, k: int) -> Seq<
    Slot<Body>,
>
    decreases k
    when 0 <= k <= ms.len()
{
    if k <= 0 {
        bodies
    } else {
        let prev = spec_wake_upto(bodies, ms, k - 1);
        let m = ms[k - 1];
        let b1 = if spec_side_is_active(prev, m.body_b) {
            spec_wake_side(prev, m.body_a)
        } else {
            prev
        };
        if spec_side_is_active(b1, m.body_a) {
            spec_wake_side(b1, m.body_b)
        } else {
            b1
        }
    }
}

fn side_is_active(bodies: &Vec<Slot<Body>>, idx: Option<usize>) -> (r: bool)
    ensures
        r == spec_side_is_active(bodies@, idx),
{
    match idx {
        Some(i) => {
            if i < bodies.len() {
                match bodies[i].val {
                    Some(b) => !matches!(b.kind, BodyKind::Fixed) && !b.sleeping,
                    None => false,
                }
            } else {
                false
            }
        },
        None => false,
    }
}

fn wake_side(bodies: &mut Vec<Slot<Body>>, idx: Option<usize>)
    ensures
        final(bodies)@ == spec_wake_side(old(bodies)@, idx),
{
    match idx {
        Some(i) => {
            if i < bodies.len() {
                let sl: Slot<Body> = bodies[i];
                match sl.val {
                    Some(b) => {
                        if matches!(b.kind, BodyKind::Dynamic) && b.sleeping {
                            let nb = Body { sleeping: false, low_energy_steps: 0, ..b };
                            bodies[i] = Slot { generation: sl.generation, val: Some(nb) };
                        }
                    },
                    None => {},
                }
            }
        },
        None => {},
    }
}

pub fn wake_on_contacts(bodies: &mut Vec<Slot<Body>>, ms: &Vec<Manifold>)
    ensures
        final(bodies)@ == spec_wake_upto(old(bodies)@, ms@, ms@.len() as int),
{
    let n: usize = ms.len();
    let mut k: usize = 0;
    while k < n
        invariant
            k <= n,
            n == ms@.len(),
            bodies@ == spec_wake_upto(old(bodies)@, ms@, k as int),
        decreases n - k,
    {
        let m: Manifold = ms[k];
        if side_is_active(bodies, m.body_b) {
            wake_side(bodies, m.body_a);
        }
        if side_is_active(bodies, m.body_a) {
            wake_side(bodies, m.body_b);
        }
        k = k + 1;
    }
}

/// Island edges: body-index pairs linked by a manifold or a live joint.
pub open spec fn spec_edges_from_manifolds(ms: Seq<Manifold>, k: int) -> Seq<(usize, usize)>
    decreases k
    when 0 <= k <= ms.len()
{
    if k <= 0 {
        Seq::empty()
    } else {
        let prev = spec_edges_from_manifolds(ms, k - 1);
        match (ms[k - 1].body_a, ms[k - 1].body_b) {
            (Some(a), Some(b)) => prev.push((a, b)),
            _ => prev,
        }
    }
}

pub open spec fn spec_edges_with_joints(
    base: Seq<(usize, usize)>,
    bodies: Seq<Slot<Body>>,
    js: Seq<Slot<Joint>>,
    k: int,
) -> Seq<(usize, usize)>
    decreases k
    when 0 <= k <= js.len()
{
    if k <= 0 {
        base
    } else {
        let prev = spec_edges_with_joints(base, bodies, js, k - 1);
        let sl = js[k - 1];
        if sl.val is Some && spec_slot_valid(
            bodies,
            sl.val->0.body_a.index as int,
            sl.val->0.body_a.generation,
        ) && spec_slot_valid(bodies, sl.val->0.body_b.index as int, sl.val->0.body_b.generation) {
            prev.push((sl.val->0.body_a.index, sl.val->0.body_b.index))
        } else {
            prev
        }
    }
}

pub fn collect_edges(bodies: &Vec<Slot<Body>>, ms: &Vec<Manifold>, js: &Vec<Slot<Joint>>) -> (r:
    Vec<(usize, usize)>)
    ensures
        r@ == spec_edges_with_joints(
            spec_edges_from_manifolds(ms@, ms@.len() as int),
            bodies@,
            js@,
            js@.len() as int,
        ),
{
    let mut acc: Vec<(usize, usize)> = Vec::new();
    let n: usize = ms.len();
    let mut k: usize = 0;
    while k < n
        invariant
            k <= n,
            n == ms@.len(),
            acc@ == spec_edges_from_manifolds(ms@, k as int),
        decreases n - k,
    {
        let m: Manifold = ms[k];
        match (m.body_a, m.body_b) {
            (Some(a), Some(b)) => acc.push((a, b)),
            _ => {},
        }
        k = k + 1;
    }
    let jn: usize = js.len();
    let mut j: usize = 0;
    while j < jn
        invariant
            j <= jn,
            jn == js@.len(),
            acc@ == spec_edges_with_joints(
                spec_edges_from_manifolds(ms@, ms@.len() as int),
                bodies@,
                js@,
                j as int,
            ),
        decreases jn - j,
    {
        let sl: Slot<Joint> = js[j];
        match sl.val {
            Some(jt) => {
                let va = crate::store::slot_get(bodies, jt.body_a.index, jt.body_a.generation);
                let vb = crate::store::slot_get(bodies, jt.body_b.index, jt.body_b.generation);
                if va.is_some() && vb.is_some() {
                    acc.push((jt.body_a.index, jt.body_b.index));
                }
            },
            None => {},
        }
        j = j + 1;
    }
    acc
}

/// One label-merging sweep over the edges: both ends of each edge take the
/// smaller of their two labels.
pub open spec fn spec_merge_pass(labels: Seq<usize>, edges: Seq<(usize, usize)>, k: int) -> Seq<
    usize,
>
    decreases k
    when 0 <= k <= edges.len()
{
    if k <= 0 {
        labels
    } else {
        let prev = spec_merge_pass(labels, edges, k - 1);
        let e = edges[k - 1];
        if e.0 < prev.len() && e.1 < prev.len() {
            let la = prev[e.0 as int];
            let lb = prev[e.1 as int];
            let m = if la <= lb {
                la
            } else {
                lb
            };
            prev.update(e.0 as int, m).update(e.1 as int, m)
        } else {
            prev
        }
    }
}

/// `passes` label-merging sweeps; as many sweeps as bodies guarantees a
/// fixpoint, so connected bodies share a label.
pub open spec fn spec_merge_iters(
    labels: Seq<usize>,
    edges: Seq<(usize, usize)>,
    passes: nat,
) -> Seq<usize>
    decreases passes,
{
    if passes == 0 {
        labels
    } else {
        spec_merge_pass(spec_merge_iters(labels, edges, (passes - 1) as nat), edges, edges.len() as int)
    }
}

pub open spec fn spec_identity_labels(n: nat) -> Seq<usize> {
    Seq::new(n, |i: int| i as usize)
}

pub fn island_labels(n: usize, edges: &Vec<(usize, usize)>) -> (r: Vec<usize>)
    ensures
        r@ == spec_merge_iters(spec_identity_labels(n as nat), edges@, n as nat),
{
    let mut labels: Vec<usize> = Vec::new();
    let mut i: usize = 0;
    while i < n
        invariant
            i <= n,
            labels@.len() == i,
            forall|q: int| 0 <= q < i ==> labels@[q] == q as usize,
        decreases n - i,
    {
        labels.push(i);
        i = i + 1;
    }
    proof {
        assert(labels@ =~= spec_identity_labels(n as nat));
    }
    let en: usize = edges.len();
    let mut p: usize = 0;
    while p < n
        invariant
            p <= n,
            en == edges@.len(),
            labels@ == spec_merge_iters(spec_identity_labels(n as nat), edges@, p as nat),
        decreases n - p,
    {
        let ghost pass_start = labels@;
        let mut k: usize = 0;
        while k < en
            invariant
                k <= en,
                en == edges@.len(),
                pass_start == spec_merge_iters(spec_identity_labels(n as nat), edges@, p as nat),
                labels@ == spec_merge_pass(pass_start, edges@, k as int),
            decreases en - k,
        {
            let e: (usize, usize) = edges[k];
            if e.0 < labels.len() && e.1 < labels.len() {
                let la: usize = labels[e.0];
                let lb: usize = labels[e.1];
                let m: usize = if la <= lb {
                    la
                } else {
                    lb
                };
                labels[e.0] = m;
                labels[e.1] = m;
            }
            k = k + 1;
        }
        p = p + 1;
    }
    labels
}

/// A body blocks its island from sleeping unless it is fixed, empty, or
/// has been calm for the required number of steps.
pub open spec fn spec_body_eligible(sl: Slot<Body>) -> bool {
    match sl.val {
        Some(b) => b.kind is Fixed || b.low_energy_steps >= SLEEP_STEPS_REQUIRED,
        None => true,
    }
}

/// Which island labels may sleep: a label is vetoed by any non-eligible
/// member.
pub open spec fn spec_island_ok_upto(
    bodies: Seq<Slot<Body>>,
    labels: Seq<usize>,
    ok: Seq<bool>,
    n: int,
) -> Seq<bool>
    decreases n
    when 0 <= n <= bodies.len()
{
    if n <= 0 {
        ok
    } else {
        let prev = spec_island_ok_upto(bodies, labels, ok, n - 1);
        if !spec_body_eligible(bodies[n - 1]) && n - 1 < labels.len() && labels[n - 1] < prev.len() {
            prev.update(labels[n - 1] as int, false)
        } else {
            prev
        }
    }
}

/// Apply the island decision: every live dynamic body sleeps exactly when
/// its island may sleep (falling asleep zeroes its velocities; an island
/// kept awake wakes every member). Fixed and kinematic bodies never carry
/// the sleeping flag.
pub open spec fn spec_apply_sleep_upto(
    bodies: Seq<Slot<Body>>,
    labels: Seq<usize>,
    ok: Seq<bool>,
    n: int,
) -> Seq<Slot<Body>>
    decreases n
    when 0 <= n <= bodies.len()
{
    if n <= 0 {
        bodies
    } else {
        let prev = spec_apply_sleep_upto(bodies, labels, ok, n - 1);
        let sl = bodies[n - 1];
        if sl.val is Some && sl.val->0.kind is Dynamic && n - 1 < labels.len() && labels[n - 1]
            < ok.len() {
            let b = sl.val->0;
            let slp = ok[labels[n - 1] as int];
            let nb = if slp {
                Body { sleeping: true, lin_vel: spec_v_zero(), ang_vel: spec_v_zero(), ..b }
            } else {
                Body { sleeping: false, ..b }
            };
            prev.update(n - 1, Slot { generation: sl.generation, val: Some(nb) })
        } else {
            prev
        }
    }
}

/// The whole activity update: counters, island labels from contacts and
/// joints, then the sleep/wake decision.
pub open spec fn spec_islands(
    bodies: Seq<Slot<Body>>,
    ms: Seq<Manifold>,
    js: Seq<Slot<Joint>>,
) -> Seq<Slot<Body>> {
    let b1 = spec_energy_upto(bodies, bodies.len() as int);
    let edges = spec_edges_with_joints(
        spec_edges_from_manifolds(ms, ms.len() as int),
        b1,
        js,
        js.len() as int,
    );
    let labels = spec_merge_iters(spec_identity_labels(b1.len()), edges, b1.len());
    let ok = spec_island_ok_upto(b1, labels, Seq::new(b1.len(), |q: int| true), b1.len() as int);
    spec_apply_sleep_upto(b1, labels, ok, b1.len() as int)
}

pub fn update_islands(bodies: &mut Vec<Slot<Body>>, ms: &Vec<Manifold>, js: &Vec<Slot<Joint>>)
    ensures
        final(bodies)@ == spec_islands(old(bodies)@, ms@, js@),
{
    update_energy(bodies);
    let ghost b1 = bodies@;
    let edges = collect_edges(bodies, ms, js);
    let n: usize = bodies.len();
    let labels = island_labels(n, &edges);
    let mut ok: Vec<bool> = Vec::new();
    let mut z: usize = 0;
    while z < n
        invariant
            z <= n,
            ok@.len() == z,
            forall|q: int| 0 <= q < z ==> ok@[q] == true,
        decreases n - z,
    {
        ok.push(true);
        z = z + 1;
    }
    proof {
        assert(ok@ =~= Seq::new(n as nat, |q: int| true));
    }
    let mut i: usize = 0;
    while i < n
        invariant
            i <= n,
            n == bodies@.len(),
            bodies@ == b1,
            labels@ == spec_merge_iters(spec_identity_labels(n as nat), edges@, n as nat),
            ok@ == spec_island_ok_upto(
                bodies@,
                labels@,
                Seq::new(n as nat, |q: int| true),
                i as int,
            ),
            ok@.len() == n,
        decreases n - i,
    {
        let sl: Slot<Body> = bodies[i];
        let eligible: bool = match sl.val {
            Some(b) => matches!(b.kind, BodyKind::Fixed) || b.low_energy_steps
                >= SLEEP_STEPS_REQUIRED,
            None => true,
        };
        if !eligible && i < labels.len() {
            let l: usize = labels[i];
            if l < ok.len() {
                ok[l] = false;
            }
        }
        i = i + 1;
    }
    let ghost ok_final = ok@;
    let ghost pre_sleep = bodies@;
    let mut j: usize = 0;
    while j < n
        invariant
            j <= n,
            n == bodies@.len(),
            ok@ == ok_final,
            bodies@ == spec_apply_sleep_upto(pre_sleep, labels@, ok_final, j as int),
            pre_sleep.len() == n,
            forall|q: int| j <= q < n ==> bodies@[q] == pre_sleep[q],
        decreases n - j,
    {
        let sl: Slot<Body> = bodies[j];
        match sl.val {
            Some(b) => {
                if matches!(b.kind, BodyKind::Dynamic) && j < labels.len() {
                    let l: usize = labels[j];
                    if l < ok.len() {
                        let slp: bool = ok[l];
                        let nb = if slp {
                            Body {
                                sleeping: true,
                                lin_vel: v_zero(),
                                ang_vel: v_zero(),
                                ..b
                            }
                        } else {
                            Body { sleeping: false, ..b }
                        };
                        bodies[j] = Slot { generation: sl.generation, val: Some(nb) };
                    }
                }
            },
            None => {},
        }
        j = j + 1;
    }
}

} // verus!
