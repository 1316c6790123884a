//! The scene: the entity store plus gravity and the fixed integration
//! parameters, and the per-step pipeline — broad phase, narrow phase,
//! wake-up, velocity solve, positional correction, integration with the
//! continuous-collision pass, and the island/sleep update.

use vstd::prelude::*;
use crate::broad::{broad_phase, spec_broad_pairs};
use crate::fx::{FX_MAX, spec_fx_mul};
use crate::integrate::{
    apply_corrections, apply_gravity, integrate_positions, spec_apply_correction,
    spec_corrections_upto, spec_gravity_upto, spec_positions_upto, spec_side_add_pos,
};
use crate::islands::{
    spec_apply_sleep_upto, spec_energy_upto, spec_islands, spec_wake_side, spec_wake_upto,
    update_islands, wake_on_contacts,
};
use crate::narrow::{Manifold, narrow_phase, spec_manifolds_upto};
use crate::solver::{
    solve, spec_apply_contact, spec_side_add_vel, spec_solve, spec_solve_iters, spec_solve_pass,
};
use crate::store::{Body, Collider, Joint, SimError, Slot, World};
use crate::vec3::{Vec3, spec_v_in_range};

verus! {

/// Ceiling on the configurable solver iteration count.
pub const MAX_SOLVER_ITERS: u32 = 64;

/// A scene owns the entity store, the gravity vector and the global
/// integration parameters. The timestep is fixed per configuration;
/// changing it is a reconfiguration through `set_timestep`, never a
/// per-frame variable.
pub struct Scene {
    pub world: World,
    pub gravity: Vec3,
    pub dt: i64,
    pub solver_iters: u32,
}

/// The bodies after one full step of the pipeline.
pub open spec fn spec_scene_step(
    bodies: Seq<Slot<Body>>,
    cols: Seq<Slot<Collider>>,
    joints: Seq<Slot<Joint>>,
    gravity: Vec3,
    dt: i64,
    iters: u32,
) -> Seq<Slot<Body>> {
    let b1 = spec_gravity_upto(bodies, gravity, dt, bodies.len() as int);
    let pairs = spec_broad_pairs(b1, cols, dt);
    let ms = spec_manifolds_upto(b1, cols, pairs, pairs.len() as int);
    let b2 = spec_wake_upto(b1, ms, ms.len() as int);
    let b3 = spec_solve(b2, ms, iters as nat);
    let b4 = if dt > 0 {
        spec_corrections_upto(b3, ms, ms.len() as int)
    } else {
        b3
    };
    let b5 = spec_positions_upto(b4, cols, dt, b4.len() as int);
    spec_islands(b5, ms, joints)
}

/// `n` pipeline steps in sequence.
pub open spec fn spec_scene_step_n(
    bodies: Seq<Slot<Body>>,
    cols: Seq<Slot<Collider>>,
    joints: Seq<Slot<Joint>>,
    gravity: Vec3,
    dt: i64,
    iters: u32,
    n: nat,
) -> Seq<Slot<Body>>
    decreases n,
{
    if n == 0 {
        bodies
    } else {
        spec_scene_step(
            spec_scene_step_n(bodies, cols, joints, gravity, dt, iters, (n - 1) as nat),
            cols,
            joints,
            gravity,
            dt,
            iters,
        )
    }
}

impl Scene {
    /// Build a scene. Rejected configurations: an unrepresentable gravity
    /// vector, a negative or unrepresentable timestep, or an iteration
    /// count beyond the ceiling.
    pub fn new(gravity: Vec3, dt: i64, solver_iters: u32) -> (r: Result<Scene, SimError>)
        ensures
            (spec_v_in_range(gravity) && 0 <= dt <= FX_MAX && solver_iters <= MAX_SOLVER_ITERS)
                <==> r is Ok,
            r is Ok ==> r->Ok_0.gravity == gravity && r->Ok_0.dt == dt && r->Ok_0.solver_iters
                == solver_iters && r->Ok_0.world.bodies@.len() == 0
                && r->Ok_0.world.colliders@.len() == 0 && r->Ok_0.world.joints@.len() == 0,
            r is Err ==> r == Err::<Scene, SimError>(SimError::InvalidConfiguration),
    {
        if -FX_MAX <= gravity.x && gravity.x <= FX_MAX && -FX_MAX <= gravity.y && gravity.y
            <= FX_MAX && -FX_MAX <= gravity.z && gravity.z <= FX_MAX && 0 <= dt && dt <= FX_MAX
            && solver_iters <= MAX_SOLVER_ITERS {
            Ok(Scene { world: World::new(), gravity, dt, solver_iters })
        } else {
            Err(SimError::InvalidConfiguration)
        }
    }

    /// Reconfigure the fixed timestep.
    pub fn set_timestep(&mut self, dt: i64) -> (r: Result<(), SimError>)
        ensures
            (0 <= dt <= FX_MAX) <==> r is Ok,
            r is Ok ==> final(self).dt == dt,
            r is Err ==> r == Err::<(), SimError>(SimError::InvalidConfiguration) && final(self).dt
                == old(self).dt,
            final(self).world == old(self).world,
            final(self).gravity == old(self).gravity,
            final(self).solver_iters == old(self).solver_iters,
    {
        if 0 <= dt && dt <= FX_MAX {
            self.dt = dt;
            Ok(())
        } else {
            Err(SimError::InvalidConfiguration)
        }
    }

    /// Advance the simulation by one fixed step: run the whole pipeline
    /// once. Only body state changes; colliders, joints and the
    /// configuration stay as they are.
    pub fn step(&mut self)
        ensures
            final(self).world.bodies@ == spec_scene_step(
                old(self).world.bodies@,
                old(self).world.colliders@,
                old(self).world.joints@,
                old(self).gravity,
                old(self).dt,
                old(self).solver_iters,
            ),
            final(self).world.colliders@ == old(self).world.colliders@,
            final(self).world.joints@ == old(self).world.joints@,
            final(self).gravity == old(self).gravity,
            final(self).dt == old(self).dt,
            final(self).solver_iters == old(self).solver_iters,
    {
        let dt: i64 = self.dt;
        apply_gravity(&mut self.world.bodies, self.gravity, dt);
        let pairs = broad_phase(&self.world.bodies, &self.world.colliders, dt);
        let ms = narrow_phase(&self.world.bodies, &self.world.colliders, &pairs);
        wake_on_contacts(&mut self.world.bodies, &ms);
        solve(&mut self.world.bodies, &ms, self.solver_iters);
        if dt > 0 {
            apply_corrections(&mut self.world.bodies, &ms);
        }
        integrate_positions(&mut self.world.bodies, &self.world.colliders, dt);
        update_islands(&mut self.world.bodies, &ms, &self.world.joints);
    }
}

/// Fixed bodies keep their whole state: slot-for-slot, every slot holding
/// a fixed body is identical in `b` to what it was in `a`.
pub open spec fn spec_fixed_frozen(a: Seq<Slot<Body>>, b: Seq<Slot<Body>>) -> bool {
    b.len() == a.len() && forall|i: int|
        0 <= i < a.len() && a[i].val is Some && a[i].val->0.kind is Fixed ==> b[i] == a[i]
}

proof fn lemma_side_add_vel_frozen(bodies: Seq<Slot<Body>>, idx: Option<usize>, dv: Vec3)
    ensures
        spec_fixed_frozen(bodies, spec_side_add_vel(bodies, idx, dv)),
{
}

proof fn lemma_side_add_pos_frozen(bodies: Seq<Slot<Body>>, idx: Option<usize>, dp: Vec3)
    ensures
        spec_fixed_frozen(bodies, spec_side_add_pos(bodies, idx, dp)),
{
}

proof fn lemma_wake_side_frozen(bodies: Seq<Slot<Body>>, idx: Option<usize>)
    ensures
        spec_fixed_frozen(bodies, spec_wake_side(bodies, idx)),
{
}

/// Frozenness composes.
proof fn lemma_frozen_trans(a: Seq<Slot<Body>>, b: Seq<Slot<Body>>, c: Seq<Slot<Body>>)
    requires
        spec_fixed_frozen(a, b),
        spec_fixed_frozen(b, c),
    ensures
        spec_fixed_frozen(a, c),
{
}

proof fn lemma_gravity_frozen(bodies: Seq<Slot<Body>>, gravity: Vec3, dt: i64, n: int)
    requires
        0 <= n <= bodies.len(),
    ensures
        spec_fixed_frozen(bodies, spec_gravity_upto(bodies, gravity, dt, n)),
    decreases n,
{
    if n > 0 {
        lemma_gravity_frozen(bodies, gravity, dt, n - 1);
    }
}

proof fn lemma_wake_frozen(bodies: Seq<Slot<Body>>, ms: Seq<Manifold>, k: int)
    requires
        0 <= k <= ms.len(),
    ensures
        spec_fixed_frozen(bodies, spec_wake_upto(bodies, ms, k)),
    decreases k,
{
    if k > 0 {
        lemma_wake_frozen(bodies, ms, k - 1);
        let prev = spec_wake_upto(bodies, ms, k - 1);
        let m = ms[k - 1];
        lemma_wake_side_frozen(prev, m.body_a);
        let b1 = if crate::islands::spec_side_is_active(prev, m.body_b) {
            spec_wake_side(prev, m.body_a)
        } else {
            prev
        };
        lemma_wake_side_frozen(b1, m.body_b);
        lemma_frozen_trans(bodies, prev, b1);
        lemma_frozen_trans(bodies, b1, spec_wake_upto(bodies, ms, k));
    }
}

#[verifier::rlimit(100)]
proof fn lemma_apply_contact_frozen(bodies: Seq<Slot<Body>>, m: Manifold, acc: (i64, i64))
    ensures
        spec_fixed_frozen(bodies, spec_apply_contact(bodies, m, acc).0),
{
    reveal(spec_apply_contact);
    assert forall|b: Seq<Slot<Body>>, idx: Option<usize>, dv: Vec3|
        #[trigger] spec_side_add_vel(b, idx, dv) == spec_side_add_vel(b, idx, dv) implies spec_fixed_frozen(
        b,
        spec_side_add_vel(b, idx, dv),
    ) by {
        lemma_side_add_vel_frozen(b, idx, dv);
    }
    let r = spec_apply_contact(bodies, m, acc).0;
    assert(spec_fixed_frozen(bodies, r));
}

proof fn lemma_solve_pass_frozen(
    bodies: Seq<Slot<Body>>,
    ms: Seq<Manifold>,
    accs: Seq<(i64, i64)>,
    k: int,
)
    requires
        0 <= k <= ms.len(),
        accs.len() == ms.len(),
    ensures
        spec_fixed_frozen(bodies, spec_solve_pass(bodies, ms, accs, k).0),
        spec_solve_pass(bodies, ms, accs, k).1.len() == ms.len(),
    decreases k,
{
    if k > 0 {
        lemma_solve_pass_frozen(bodies, ms, accs, k - 1);
        let prev = spec_solve_pass(bodies, ms, accs, k - 1);
        lemma_apply_contact_frozen(prev.0, ms[k - 1], prev.1[k - 1]);
        lemma_frozen_trans(bodies, prev.0, spec_solve_pass(bodies, ms, accs, k).0);
    }
}

proof fn lemma_solve_frozen(
    bodies: Seq<Slot<Body>>,
    ms: Seq<Manifold>,
    accs: Seq<(i64, i64)>,
    iters: nat,
)
    requires
        accs.len() == ms.len(),
    ensures
        spec_fixed_frozen(bodies, spec_solve_iters(bodies, ms, accs, iters).0),
        spec_solve_iters(bodies, ms, accs, iters).1.len() == ms.len(),
    decreases iters,
{
    if iters > 0 {
        lemma_solve_frozen(bodies, ms, accs, (iters - 1) as nat);
        let prev = spec_solve_iters(bodies, ms, accs, (iters - 1) as nat);
        lemma_solve_pass_frozen(prev.0, ms, prev.1, ms.len() as int);
        lemma_frozen_trans(bodies, prev.0, spec_solve_iters(bodies, ms, accs, iters).0);
    }
}

#[verifier::rlimit(100)]
proof fn lemma_correction_frozen(bodies: Seq<Slot<Body>>, m: Manifold)
    ensures
        spec_fixed_frozen(bodies, spec_apply_correction(bodies, m)),
{
    reveal(spec_apply_correction);
    assert forall|b: Seq<Slot<Body>>, idx: Option<usize>, dp: Vec3|
        #[trigger] spec_side_add_pos(b, idx, dp) == spec_side_add_pos(b, idx, dp) implies spec_fixed_frozen(
        b,
        spec_side_add_pos(b, idx, dp),
    ) by {
        lemma_side_add_pos_frozen(b, idx, dp);
    }
    assert(spec_fixed_frozen(bodies, spec_apply_correction(bodies, m)));
}

proof fn lemma_corrections_frozen(bodies: Seq<Slot<Body>>, ms: Seq<Manifold>, k: int)
    requires
        0 <= k <= ms.len(),
    ensures
        spec_fixed_frozen(bodies, spec_corrections_upto(bodies, ms, k)),
    decreases k,
{
    if k > 0 {
        lemma_corrections_frozen(bodies, ms, k - 1);
        let prev = spec_corrections_upto(bodies, ms, k - 1);
        lemma_correction_frozen(prev, ms[k - 1]);
        lemma_frozen_trans(bodies, prev, spec_corrections_upto(bodies, ms, k));
    }
}

proof fn lemma_positions_frozen(
    bodies: Seq<Slot<Body>>,
    cols: Seq<Slot<Collider>>,
    dt: i64,
    n: int,
)
    requires
        0 <= n <= bodies.len(),
    ensures
        spec_fixed_frozen(bodies, spec_positions_upto(bodies, cols, dt, n)),
    decreases n,
{
    if n > 0 {
        lemma_positions_frozen(bodies, cols, dt, n - 1);
    }
}

proof fn lemma_energy_frozen(bodies: Seq<Slot<Body>>, n: int)
    requires
        0 <= n <= bodies.len(),
    ensures
        spec_fixed_frozen(bodies, spec_energy_upto(bodies, n)),
    decreases n,
{
    if n > 0 {
        lemma_energy_frozen(bodies, n - 1);
    }
}

proof fn lemma_sleep_frozen(
    bodies: Seq<Slot<Body>>,
    labels: Seq<usize>,
    ok: Seq<bool>,
    n: int,
)
    requires
        0 <= n <= bodies.len(),
    ensures
        spec_fixed_frozen(bodies, spec_apply_sleep_upto(bodies, labels, ok, n)),
    decreases n,
{
    if n > 0 {
        lemma_sleep_frozen(bodies, labels, ok, n - 1);
    }
}

proof fn lemma_islands_frozen(bodies: Seq<Slot<Body>>, ms: Seq<Manifold>, js: Seq<Slot<Joint>>)
    ensures
        spec_fixed_frozen(bodies, spec_islands(bodies, ms, js)),
{
    let b1 = spec_energy_upto(bodies, bodies.len() as int);
    lemma_energy_frozen(bodies, bodies.len() as int);
    let edges = crate::islands::spec_edges_with_joints(
        crate::islands::spec_edges_from_manifolds(ms, ms.len() as int),
        b1,
        js,
        js.len() as int,
    );
    let labels = crate::islands::spec_merge_iters(
        crate::islands::spec_identity_labels(b1.len()),
        edges,
        b1.len(),
    );
    let ok = crate::islands::spec_island_ok_upto(
        b1,
        labels,
        Seq::new(b1.len(), |q: int| true),
        b1.len() as int,
    );
    lemma_sleep_frozen(b1, labels, ok, b1.len() as int);
    lemma_frozen_trans(bodies, b1, spec_apply_sleep_upto(b1, labels, ok, b1.len() as int));
}

/// LAW (fixed bodies at rest): one pipeline step leaves every fixed body's
/// whole state — in particular its position and orientation — exactly as
/// it was.
pub proof fn lemma_step_fixed_frozen(
    bodies: Seq<Slot<Body>>,
    cols: Seq<Slot<Collider>>,
    joints: Seq<Slot<Joint>>,
    gravity: Vec3,
    dt: i64,
    iters: u32,
)
    ensures
        spec_fixed_frozen(bodies, spec_scene_step(bodies, cols, joints, gravity, dt, iters)),
{
    let b1 = spec_gravity_upto(bodies, gravity, dt, bodies.len() as int);
    let pairs = spec_broad_pairs(b1, cols, dt);
    let ms = spec_manifolds_upto(b1, cols, pairs, pairs.len() as int);
    let b2 = spec_wake_upto(b1, ms, ms.len() as int);
    let accs0 = Seq::new(ms.len(), |k: int| (0i64, 0i64));
    let b3 = spec_solve(b2, ms, iters as nat);
    let b4 = if dt > 0 {
        spec_corrections_upto(b3, ms, ms.len() as int)
    } else {
        b3
    };
    let b5 = spec_positions_upto(b4, cols, dt, b4.len() as int);
    lemma_gravity_frozen(bodies, gravity, dt, bodies.len() as int);
    lemma_wake_frozen(b1, ms, ms.len() as int);
    lemma_solve_frozen(b2, ms, accs0, iters as nat);
    lemma_frozen_trans(bodies, b1, b2);
    lemma_frozen_trans(bodies, b2, b3);
    if dt > 0 {
        lemma_corrections_frozen(b3, ms, ms.len() as int);
        lemma_frozen_trans(bodies, b3, b4);
    }
    lemma_positions_frozen(b4, cols, dt, b4.len() as int);
    lemma_frozen_trans(bodies, b4, b5);
    lemma_islands_frozen(b5, ms, joints);
    lemma_frozen_trans(bodies, b5, spec_islands(b5, ms, joints));
}

/// LAW (fixed bodies at rest, any horizon): position and orientation of
/// every fixed body are unchanged by any number of steps.
pub proof fn lemma_step_n_fixed_frozen(
    bodies: Seq<Slot<Body>>,
    cols: Seq<Slot<Collider>>,
    joints: Seq<Slot<Joint>>,
    gravity: Vec3,
    dt: i64,
    iters: u32,
    n: nat,
)
    ensures
        spec_fixed_frozen(bodies, spec_scene_step_n(bodies, cols, joints, gravity, dt, iters, n)),
    decreases n,
{
    if n == 0 {
    } else {
        lemma_step_n_fixed_frozen(bodies, cols, joints, gravity, dt, iters, (n - 1) as nat);
        let prev = spec_scene_step_n(bodies, cols, joints, gravity, dt, iters, (n - 1) as nat);
        lemma_step_fixed_frozen(prev, cols, joints, gravity, dt, iters);
        lemma_frozen_trans(bodies, prev, spec_scene_step_n(bodies, cols, joints, gravity, dt, iters, n));
    }
}


/// Transforms kept: every slot keeps its occupancy, and every live body
/// keeps its position and orientation.
pub open spec fn spec_transforms_kept(a: Seq<Slot<Body>>, b: Seq<Slot<Body>>) -> bool {
    b.len() == a.len() && forall|i: int|
        0 <= i < a.len() ==> ((b[i].val is Some <==> a[i].val is Some) && (a[i].val is Some
            ==> b[i].val->0.pos == a[i].val->0.pos && b[i].val->0.rot == a[i].val->0.rot))
}

/// Every live body's position is representable. Scenes built through this
/// library's operations always satisfy this: inserted positions are
/// validated and every written position saturates.
pub open spec fn spec_positions_in_range(a: Seq<Slot<Body>>) -> bool {
    forall|i: int| 0 <= i < a.len() && a[i].val is Some ==> spec_v_in_range(#[trigger] a[i].val->0.pos)
}

proof fn lemma_kept_trans(a: Seq<Slot<Body>>, b: Seq<Slot<Body>>, c: Seq<Slot<Body>>)
    requires
        spec_transforms_kept(a, b),
        spec_transforms_kept(b, c),
    ensures
        spec_transforms_kept(a, c),
{
}

proof fn lemma_gravity_kept(bodies: Seq<Slot<Body>>, gravity: Vec3, dt: i64, n: int)
    requires
        0 <= n <= bodies.len(),
    ensures
        spec_transforms_kept(bodies, spec_gravity_upto(bodies, gravity, dt, n)),
    decreases n,
{
    if n > 0 {
        lemma_gravity_kept(bodies, gravity, dt, n - 1);
    }
}

proof fn lemma_side_add_vel_kept(bodies: Seq<Slot<Body>>, idx: Option<usize>, dv: Vec3)
    ensures
        spec_transforms_kept(bodies, spec_side_add_vel(bodies, idx, dv)),
{
}

proof fn lemma_wake_side_kept(bodies: Seq<Slot<Body>>, idx: Option<usize>)
    ensures
        spec_transforms_kept(bodies, spec_wake_side(bodies, idx)),
{
}

proof fn lemma_wake_kept(bodies: Seq<Slot<Body>>, ms: Seq<Manifold>, k: int)
    requires
        0 <= k <= ms.len(),
    ensures
        spec_transforms_kept(bodies, spec_wake_upto(bodies, ms, k)),
    decreases k,
{
    if k > 0 {
        lemma_wake_kept(bodies, ms, k - 1);
        let prev = spec_wake_upto(bodies, ms, k - 1);
        let m = ms[k - 1];
        lemma_wake_side_kept(prev, m.body_a);
        let b1 = if crate::islands::spec_side_is_active(prev, m.body_b) {
            spec_wake_side(prev, m.body_a)
        } else {
            prev
        };
        lemma_wake_side_kept(b1, m.body_b);
        lemma_kept_trans(bodies, prev, b1);
        lemma_kept_trans(bodies, b1, spec_wake_upto(bodies, ms, k));
    }
}

#[verifier::rlimit(100)]
proof fn lemma_apply_contact_kept(bodies: Seq<Slot<Body>>, m: Manifold, acc: (i64, i64))
    ensures
        spec_transforms_kept(bodies, spec_apply_contact(bodies, m, acc).0),
{
    reveal(spec_apply_contact);
    assert forall|b: Seq<Slot<Body>>, idx: Option<usize>, dv: Vec3|
        #[trigger] spec_side_add_vel(b, idx, dv) == spec_side_add_vel(b, idx, dv) implies spec_transforms_kept(
        b,
        spec_side_add_vel(b, idx, dv),
    ) by {
        lemma_side_add_vel_kept(b, idx, dv);
    }
    assert(spec_transforms_kept(bodies, spec_apply_contact(bodies, m, acc).0));
}

proof fn lemma_solve_pass_kept(
    bodies: Seq<Slot<Body>>,
    ms: Seq<Manifold>,
    accs: Seq<(i64, i64)>,
    k: int,
)
    requires
        0 <= k <= ms.len(),
        accs.len() == ms.len(),
    ensures
        spec_transforms_kept(bodies, spec_solve_pass(bodies, ms, accs, k).0),
    decreases k,
{
    if k > 0 {
        lemma_solve_pass_kept(bodies, ms, accs, k - 1);
        let prev = spec_solve_pass(bodies, ms, accs, k - 1);
        lemma_apply_contact_kept(prev.0, ms[k - 1], prev.1[k - 1]);
        lemma_kept_trans(bodies, prev.0, spec_solve_pass(bodies, ms, accs, k).0);
    }
}

proof fn lemma_solve_kept(
    bodies: Seq<Slot<Body>>,
    ms: Seq<Manifold>,
    accs: Seq<(i64, i64)>,
    iters: nat,
)
    requires
        accs.len() == ms.len(),
    ensures
        spec_transforms_kept(bodies, spec_solve_iters(bodies, ms, accs, iters).0),
    decreases iters,
{
    if iters > 0 {
        lemma_solve_kept(bodies, ms, accs, (iters - 1) as nat);
        lemma_solve_iters_acc_len(bodies, ms, accs, (iters - 1) as nat);
        let prev = spec_solve_iters(bodies, ms, accs, (iters - 1) as nat);
        lemma_solve_pass_kept(prev.0, ms, prev.1, ms.len() as int);
        lemma_kept_trans(bodies, prev.0, spec_solve_iters(bodies, ms, accs, iters).0);
    }
}

/// The solve pass keeps the accumulator count.
pub proof fn lemma_solve_pass_len(
    bodies: Seq<Slot<Body>>,
    ms: Seq<Manifold>,
    accs: Seq<(i64, i64)>,
    k: int,
)
    requires
        0 <= k <= ms.len(),
        accs.len() == ms.len(),
    ensures
        spec_solve_pass(bodies, ms, accs, k).1.len() == ms.len(),
    decreases k,
{
    if k > 0 {
        lemma_solve_pass_len(bodies, ms, accs, k - 1);
    }
}

proof fn lemma_solve_iters_acc_len(
    bodies: Seq<Slot<Body>>,
    ms: Seq<Manifold>,
    accs: Seq<(i64, i64)>,
    iters: nat,
)
    requires
        accs.len() == ms.len(),
    ensures
        spec_solve_iters(bodies, ms, accs, iters).1.len() == ms.len(),
    decreases iters,
{
    if iters > 0 {
        lemma_solve_iters_acc_len(bodies, ms, accs, (iters - 1) as nat);
        lemma_solve_pass_len(
            spec_solve_iters(bodies, ms, accs, (iters - 1) as nat).0,
            ms,
            spec_solve_iters(bodies, ms, accs, (iters - 1) as nat).1,
            ms.len() as int,
        );
    }
}

/// A product with a zero factor is zero.
proof fn lemma_fx_mul_zero(a: int)
    ensures
        spec_fx_mul(a, 0) == 0,
        spec_fx_mul(0, a) == 0,
{
    let m = (crate::fx::spec_abs(a) * crate::fx::spec_abs(0)) / 1_000_000;
    assert(crate::fx::spec_abs(0) == 0);
    assert(crate::fx::spec_abs(a) * 0 == 0) by (nonlinear_arith);
    assert(0int / 1_000_000 == 0) by (nonlinear_arith);
    assert(m == 0);
    let m2 = (crate::fx::spec_abs(0) * crate::fx::spec_abs(a)) / 1_000_000;
    assert(0 * crate::fx::spec_abs(a) == 0) by (nonlinear_arith);
    assert(m2 == 0);
}

/// Scaling any vector by a zero factor gives the zero vector.
proof fn lemma_scale_zero(v: Vec3)
    ensures
        crate::vec3::spec_v_scale(v, 0) == crate::vec3::spec_v_zero(),
{
    lemma_fx_mul_zero(v.x as int);
    lemma_fx_mul_zero(v.y as int);
    lemma_fx_mul_zero(v.z as int);
}

/// Scaling the zero vector gives the zero vector.
proof fn lemma_scale_of_zero(s: int)
    ensures
        crate::vec3::spec_v_scale(crate::vec3::spec_v_zero(), s) == crate::vec3::spec_v_zero(),
{
    lemma_fx_mul_zero(s);
}

/// Adding the zero vector to a representable vector changes nothing.
proof fn lemma_add_zero(v: Vec3)
    requires
        spec_v_in_range(v),
    ensures
        crate::vec3::spec_v_add(v, crate::vec3::spec_v_zero()) == v,
{
}

proof fn lemma_positions_zero_dt(bodies: Seq<Slot<Body>>, cols: Seq<Slot<Collider>>, n: int)
    requires
        0 <= n <= bodies.len(),
        spec_positions_in_range(bodies),
    ensures
        spec_transforms_kept(bodies, spec_positions_upto(bodies, cols, 0, n)),
    decreases n,
{
    if n > 0 {
        lemma_positions_zero_dt(bodies, cols, n - 1);
        let prev = spec_positions_upto(bodies, cols, 0, n - 1);
        let sl = prev[n - 1];
        if sl.val is Some {
            let b = sl.val->0;
            if !(b.kind is Fixed || b.sleeping) {
                lemma_scale_zero(b.lin_vel);
                if b.kind is Dynamic {
                    let f = crate::ccd::spec_ccd_factor(
                        prev,
                        cols,
                        (n - 1) as usize,
                        crate::ccd::spec_body_sphere(prev, cols, (n - 1) as usize, cols.len() as int),
                        crate::vec3::spec_v_scale(b.lin_vel, 0),
                    );
                    lemma_scale_of_zero(f as int);
                }
                assert(b.pos == bodies[n - 1].val->0.pos);
                lemma_add_zero(b.pos);
            }
        }
    }
}

proof fn lemma_energy_kept(bodies: Seq<Slot<Body>>, n: int)
    requires
        0 <= n <= bodies.len(),
    ensures
        spec_transforms_kept(bodies, spec_energy_upto(bodies, n)),
    decreases n,
{
    if n > 0 {
        lemma_energy_kept(bodies, n - 1);
    }
}

proof fn lemma_sleep_kept(bodies: Seq<Slot<Body>>, labels: Seq<usize>, ok: Seq<bool>, n: int)
    requires
        0 <= n <= bodies.len(),
    ensures
        spec_transforms_kept(bodies, spec_apply_sleep_upto(bodies, labels, ok, n)),
    decreases n,
{
    if n > 0 {
        lemma_sleep_kept(bodies, labels, ok, n - 1);
    }
}

proof fn lemma_islands_kept(bodies: Seq<Slot<Body>>, ms: Seq<Manifold>, js: Seq<Slot<Joint>>)
    ensures
        spec_transforms_kept(bodies, spec_islands(bodies, ms, js)),
{
    let b1 = spec_energy_upto(bodies, bodies.len() as int);
    lemma_energy_kept(bodies, bodies.len() as int);
    let edges = crate::islands::spec_edges_with_joints(
        crate::islands::spec_edges_from_manifolds(ms, ms.len() as int),
        b1,
        js,
        js.len() as int,
    );
    let labels = crate::islands::spec_merge_iters(
        crate::islands::spec_identity_labels(b1.len()),
        edges,
        b1.len(),
    );
    let ok = crate::islands::spec_island_ok_upto(
        b1,
        labels,
        Seq::new(b1.len(), |q: int| true),
        b1.len() as int,
    );
    lemma_sleep_kept(b1, labels, ok, b1.len() as int);
    lemma_kept_trans(bodies, b1, spec_apply_sleep_upto(b1, labels, ok, b1.len() as int));
}

/// LAW (zero-timestep idempotence): a step with zero elapsed simulated
/// time leaves every body's position and orientation exactly unchanged,
/// for any scene whose stored positions are representable (which every
/// scene built through this library's operations is).
pub proof fn lemma_step_zero_dt_keeps_transforms(
    bodies: Seq<Slot<Body>>,
    cols: Seq<Slot<Collider>>,
    joints: Seq<Slot<Joint>>,
    gravity: Vec3,
    iters: u32,
)
    requires
        spec_positions_in_range(bodies),
    ensures
        spec_transforms_kept(bodies, spec_scene_step(bodies, cols, joints, gravity, 0, iters)),
{
    let b1 = spec_gravity_upto(bodies, gravity, 0, bodies.len() as int);
    let pairs = spec_broad_pairs(b1, cols, 0);
    let ms = spec_manifolds_upto(b1, cols, pairs, pairs.len() as int);
    let b2 = spec_wake_upto(b1, ms, ms.len() as int);
    let accs0 = Seq::new(ms.len(), |k: int| (0i64, 0i64));
    let b3 = spec_solve(b2, ms, iters as nat);
    let b5 = spec_positions_upto(b3, cols, 0, b3.len() as int);
    lemma_gravity_kept(bodies, gravity, 0, bodies.len() as int);
    lemma_wake_kept(b1, ms, ms.len() as int);
    lemma_solve_kept(b2, ms, accs0, iters as nat);
    lemma_kept_trans(bodies, b1, b2);
    lemma_kept_trans(bodies, b2, b3);
    assert(spec_positions_in_range(b3));
    lemma_positions_zero_dt(b3, cols, b3.len() as int);
    lemma_kept_trans(bodies, b3, b5);
    lemma_islands_kept(b5, ms, joints);
    lemma_kept_trans(bodies, b5, spec_islands(b5, ms, joints));
}



/// Occupancy kept: stepping never moves, retires or reuses a slot — every
/// slot keeps its generation and stays live or free as it was. Handles
/// issued before a step therefore stay valid across any number of steps.
pub open spec fn spec_occupancy_kept(a: Seq<Slot<Body>>, b: Seq<Slot<Body>>) -> bool {
    b.len() == a.len() && forall|i: int|
        0 <= i < a.len() ==> (#[trigger] b[i].generation == a[i].generation && (b[i].val is Some
            <==> a[i].val is Some))
}

proof fn lemma_occ_trans(a: Seq<Slot<Body>>, b: Seq<Slot<Body>>, c: Seq<Slot<Body>>)
    requires
        spec_occupancy_kept(a, b),
        spec_occupancy_kept(b, c),
    ensures
        spec_occupancy_kept(a, c),
{
}

proof fn lemma_gravity_occ(bodies: Seq<Slot<Body>>, gravity: Vec3, dt: i64, n: int)
    requires
        0 <= n <= bodies.len(),
    ensures
        spec_occupancy_kept(bodies, spec_gravity_upto(bodies, gravity, dt, n)),
    decreases n,
{
    if n > 0 {
        lemma_gravity_occ(bodies, gravity, dt, n - 1);
    }
}

proof fn lemma_side_add_vel_occ(bodies: Seq<Slot<Body>>, idx: Option<usize>, dv: Vec3)
    ensures
        spec_occupancy_kept(bodies, spec_side_add_vel(bodies, idx, dv)),
{
}

proof fn lemma_side_add_pos_occ(bodies: Seq<Slot<Body>>, idx: Option<usize>, dp: Vec3)
    ensures
        spec_occupancy_kept(bodies, spec_side_add_pos(bodies, idx, dp)),
{
}

proof fn lemma_wake_side_occ(bodies: Seq<Slot<Body>>, idx: Option<usize>)
    ensures
        spec_occupancy_kept(bodies, spec_wake_side(bodies, idx)),
{
}

proof fn lemma_wake_occ(bodies: Seq<Slot<Body>>, ms: Seq<Manifold>, k: int)
    requires
        0 <= k <= ms.len(),
    ensures
        spec_occupancy_kept(bodies, spec_wake_upto(bodies, ms, k)),
    decreases k,
{
    if k > 0 {
        lemma_wake_occ(bodies, ms, k - 1);
        let prev = spec_wake_upto(bodies, ms, k - 1);
        let m = ms[k - 1];
        lemma_wake_side_occ(prev, m.body_a);
        let b1 = if crate::islands::spec_side_is_active(prev, m.body_b) {
            spec_wake_side(prev, m.body_a)
        } else {
            prev
        };
        lemma_wake_side_occ(b1, m.body_b);
        lemma_occ_trans(bodies, prev, b1);
        lemma_occ_trans(bodies, b1, spec_wake_upto(bodies, ms, k));
    }
}

#[verifier::rlimit(100)]
proof fn lemma_apply_contact_occ(bodies: Seq<Slot<Body>>, m: Manifold, acc: (i64, i64))
    ensures
        spec_occupancy_kept(bodies, spec_apply_contact(bodies, m, acc).0),
{
    reveal(spec_apply_contact);
    assert forall|b: Seq<Slot<Body>>, idx: Option<usize>, dv: Vec3|
        #[trigger] spec_side_add_vel(b, idx, dv) == spec_side_add_vel(b, idx, dv) implies spec_occupancy_kept(
        b,
        spec_side_add_vel(b, idx, dv),
    ) by {
        lemma_side_add_vel_occ(b, idx, dv);
    }
    assert(spec_occupancy_kept(bodies, spec_apply_contact(bodies, m, acc).0));
}

proof fn lemma_solve_pass_occ(
    bodies: Seq<Slot<Body>>,
    ms: Seq<Manifold>,
    accs: Seq<(i64, i64)>,
    k: int,
)
    requires
        0 <= k <= ms.len(),
        accs.len() == ms.len(),
    ensures
        spec_occupancy_kept(bodies, spec_solve_pass(bodies, ms, accs, k).0),
    decreases k,
{
    if k > 0 {
        lemma_solve_pass_occ(bodies, ms, accs, k - 1);
        let prev = spec_solve_pass(bodies, ms, accs, k - 1);
        lemma_apply_contact_occ(prev.0, ms[k - 1], prev.1[k - 1]);
        lemma_occ_trans(bodies, prev.0, spec_solve_pass(bodies, ms, accs, k).0);
    }
}

proof fn lemma_solve_occ(
    bodies: Seq<Slot<Body>>,
    ms: Seq<Manifold>,
    accs: Seq<(i64, i64)>,
    iters: nat,
)
    requires
        accs.len() == ms.len(),
    ensures
        spec_occupancy_kept(bodies, spec_solve_iters(bodies, ms, accs, iters).0),
    decreases iters,
{
    if iters > 0 {
        lemma_solve_occ(bodies, ms, accs, (iters - 1) as nat);
        lemma_solve_iters_acc_len(bodies, ms, accs, (iters - 1) as nat);
        let prev = spec_solve_iters(bodies, ms, accs, (iters - 1) as nat);
        lemma_solve_pass_occ(prev.0, ms, prev.1, ms.len() as int);
        lemma_occ_trans(bodies, prev.0, spec_solve_iters(bodies, ms, accs, iters).0);
    }
}

#[verifier::rlimit(100)]
proof fn lemma_correction_occ(bodies: Seq<Slot<Body>>, m: Manifold)
    ensures
        spec_occupancy_kept(bodies, spec_apply_correction(bodies, m)),
{
    reveal(spec_apply_correction);
    assert forall|b: Seq<Slot<Body>>, idx: Option<usize>, dp: Vec3|
        #[trigger] spec_side_add_pos(b, idx, dp) == spec_side_add_pos(b, idx, dp) implies spec_occupancy_kept(
        b,
        spec_side_add_pos(b, idx, dp),
    ) by {
        lemma_side_add_pos_occ(b, idx, dp);
    }
    assert(spec_occupancy_kept(bodies, spec_apply_correction(bodies, m)));
}

proof fn lemma_corrections_occ(bodies: Seq<Slot<Body>>, ms: Seq<Manifold>, k: int)
    requires
        0 <= k <= ms.len(),
    ensures
        spec_occupancy_kept(bodies, spec_corrections_upto(bodies, ms, k)),
    decreases k,
{
    if k > 0 {
        lemma_corrections_occ(bodies, ms, k - 1);
        let prev = spec_corrections_upto(bodies, ms, k - 1);
        lemma_correction_occ(prev, ms[k - 1]);
        lemma_occ_trans(bodies, prev, spec_corrections_upto(bodies, ms, k));
    }
}

proof fn lemma_positions_occ(bodies: Seq<Slot<Body>>, cols: Seq<Slot<Collider>>, dt: i64, n: int)
    requires
        0 <= n <= bodies.len(),
    ensures
        spec_occupancy_kept(bodies, spec_positions_upto(bodies, cols, dt, n)),
    decreases n,
{
    if n > 0 {
        lemma_positions_occ(bodies, cols, dt, n - 1);
        let prev = spec_positions_upto(bodies, cols, dt, n - 1);
        let cur = spec_positions_upto(bodies, cols, dt, n);
        assert forall|i: int|
            0 <= i < bodies.len() implies #[trigger] cur[i].generation == bodies[i].generation && (
        cur[i].val is Some <==> bodies[i].val is Some) by {
            assert(prev[i].generation == bodies[i].generation);
            assert(prev[i].val is Some <==> bodies[i].val is Some);
        }
    }
}

proof fn lemma_energy_occ(bodies: Seq<Slot<Body>>, n: int)
    requires
        0 <= n <= bodies.len(),
    ensures
        spec_occupancy_kept(bodies, spec_energy_upto(bodies, n)),
    decreases n,
{
    if n > 0 {
        lemma_energy_occ(bodies, n - 1);
    }
}

proof fn lemma_sleep_occ(bodies: Seq<Slot<Body>>, labels: Seq<usize>, ok: Seq<bool>, n: int)
    requires
        0 <= n <= bodies.len(),
    ensures
        spec_occupancy_kept(bodies, spec_apply_sleep_upto(bodies, labels, ok, n)),
    decreases n,
{
    if n > 0 {
        lemma_sleep_occ(bodies, labels, ok, n - 1);
        let prev = spec_apply_sleep_upto(bodies, labels, ok, n - 1);
        let cur = spec_apply_sleep_upto(bodies, labels, ok, n);
        assert forall|i: int|
            0 <= i < bodies.len() implies #[trigger] cur[i].generation == bodies[i].generation && (
        cur[i].val is Some <==> bodies[i].val is Some) by {
            assert(prev[i].generation == bodies[i].generation);
            assert(prev[i].val is Some <==> bodies[i].val is Some);
        }
    }
}

proof fn lemma_islands_occ(bodies: Seq<Slot<Body>>, ms: Seq<Manifold>, js: Seq<Slot<Joint>>)
    ensures
        spec_occupancy_kept(bodies, spec_islands(bodies, ms, js)),
{
    let b1 = spec_energy_upto(bodies, bodies.len() as int);
    lemma_energy_occ(bodies, bodies.len() as int);
    let edges = crate::islands::spec_edges_with_joints(
        crate::islands::spec_edges_from_manifolds(ms, ms.len() as int),
        b1,
        js,
        js.len() as int,
    );
    let labels = crate::islands::spec_merge_iters(
        crate::islands::spec_identity_labels(b1.len()),
        edges,
        b1.len(),
    );
    let ok = crate::islands::spec_island_ok_upto(
        b1,
        labels,
        Seq::new(b1.len(), |q: int| true),
        b1.len() as int,
    );
    lemma_sleep_occ(b1, labels, ok, b1.len() as int);
    lemma_occ_trans(bodies, b1, spec_apply_sleep_upto(b1, labels, ok, b1.len() as int));
}

/// LAW (handles survive stepping): one pipeline step keeps every slot's
/// generation and occupancy, so every handle valid before the step is
/// valid after it — the tracked body's handle stays good for the
/// simulation's whole lifetime.
pub proof fn lemma_step_keeps_occupancy(
    bodies: Seq<Slot<Body>>,
    cols: Seq<Slot<Collider>>,
    joints: Seq<Slot<Joint>>,
    gravity: Vec3,
    dt: i64,
    iters: u32,
)
    ensures
        spec_occupancy_kept(bodies, spec_scene_step(bodies, cols, joints, gravity, dt, iters)),
        forall|i: int, g: u64|
            crate::store::spec_slot_valid(bodies, i, g) ==> crate::store::spec_slot_valid(
                #[trigger] spec_scene_step(bodies, cols, joints, gravity, dt, iters),
                i,
                g,
            ),
{
    let b1 = spec_gravity_upto(bodies, gravity, dt, bodies.len() as int);
    let pairs = spec_broad_pairs(b1, cols, dt);
    let ms = spec_manifolds_upto(b1, cols, pairs, pairs.len() as int);
    let b2 = spec_wake_upto(b1, ms, ms.len() as int);
    let accs0 = Seq::new(ms.len(), |k: int| (0i64, 0i64));
    let b3 = spec_solve(b2, ms, iters as nat);
    let b4 = if dt > 0 {
        spec_corrections_upto(b3, ms, ms.len() as int)
    } else {
        b3
    };
    let b5 = spec_positions_upto(b4, cols, dt, b4.len() as int);
    lemma_gravity_occ(bodies, gravity, dt, bodies.len() as int);
    lemma_wake_occ(b1, ms, ms.len() as int);
    lemma_solve_occ(b2, ms, accs0, iters as nat);
    lemma_occ_trans(bodies, b1, b2);
    lemma_occ_trans(bodies, b2, b3);
    if dt > 0 {
        lemma_corrections_occ(b3, ms, ms.len() as int);
        lemma_occ_trans(bodies, b3, b4);
    }
    lemma_positions_occ(b4, cols, dt, b4.len() as int);
    lemma_occ_trans(bodies, b4, b5);
    lemma_islands_occ(b5, ms, joints);
    lemma_occ_trans(bodies, b5, spec_islands(b5, ms, joints));
}



/// Velocities kept: every slot keeps its occupancy and every live body
/// keeps both its linear and its angular velocity exactly.
pub open spec fn spec_velocities_kept(a: Seq<Slot<Body>>, b: Seq<Slot<Body>>) -> bool {
    b.len() == a.len() && forall|i: int|
        0 <= i < a.len() ==> ((b[i].val is Some <==> a[i].val is Some) && (a[i].val is Some
            ==> b[i].val->0.lin_vel == a[i].val->0.lin_vel && b[i].val->0.ang_vel
            == a[i].val->0.ang_vel))
}

proof fn lemma_vels_trans(a: Seq<Slot<Body>>, b: Seq<Slot<Body>>, c: Seq<Slot<Body>>)
    requires
        spec_velocities_kept(a, b),
        spec_velocities_kept(b, c),
    ensures
        spec_velocities_kept(a, c),
{
}

proof fn lemma_side_add_pos_vels(bodies: Seq<Slot<Body>>, idx: Option<usize>, dp: Vec3)
    ensures
        spec_velocities_kept(bodies, spec_side_add_pos(bodies, idx, dp)),
{
}

#[verifier::rlimit(100)]
proof fn lemma_correction_vels(bodies: Seq<Slot<Body>>, m: Manifold)
    ensures
        spec_velocities_kept(bodies, spec_apply_correction(bodies, m)),
{
    reveal(spec_apply_correction);
    assert forall|b: Seq<Slot<Body>>, idx: Option<usize>, dp: Vec3|
        #[trigger] spec_side_add_pos(b, idx, dp) == spec_side_add_pos(b, idx, dp) implies spec_velocities_kept(
        b,
        spec_side_add_pos(b, idx, dp),
    ) by {
        lemma_side_add_pos_vels(b, idx, dp);
    }
    assert(spec_velocities_kept(bodies, spec_apply_correction(bodies, m)));
}

/// LAW (position correction injects no energy): the positional correction
/// pass resolves residual overlap by moving positions only; every body's
/// linear and angular velocity is exactly unchanged, so the correction
/// adds no kinetic energy to the system. This is the mechanism behind the
/// elastic-bounce energy check: the only energy exchange at a contact
/// goes through the restitution impulse.
pub proof fn lemma_corrections_keep_velocities(
    bodies: Seq<Slot<Body>>,
    ms: Seq<Manifold>,
    k: int,
)
    requires
        0 <= k <= ms.len(),
    ensures
        spec_velocities_kept(bodies, spec_corrections_upto(bodies, ms, k)),
    decreases k,
{
    if k > 0 {
        lemma_corrections_keep_velocities(bodies, ms, k - 1);
        let prev = spec_corrections_upto(bodies, ms, k - 1);
        lemma_correction_vels(prev, ms[k - 1]);
        lemma_vels_trans(bodies, prev, spec_corrections_upto(bodies, ms, k));
    }
}



/// Sleeping bodies frozen: every slot holding a sleeping body is entirely
/// unchanged.
pub open spec fn spec_sleeping_frozen(a: Seq<Slot<Body>>, b: Seq<Slot<Body>>) -> bool {
    b.len() == a.len() && forall|i: int|
        0 <= i < a.len() && a[i].val is Some && a[i].val->0.sleeping ==> b[i] == a[i]
}

proof fn lemma_sleeping_trans(a: Seq<Slot<Body>>, b: Seq<Slot<Body>>, c: Seq<Slot<Body>>)
    requires
        spec_sleeping_frozen(a, b),
        spec_sleeping_frozen(b, c),
    ensures
        spec_sleeping_frozen(a, c),
{
}

proof fn lemma_side_add_vel_sleeping(bodies: Seq<Slot<Body>>, idx: Option<usize>, dv: Vec3)
    ensures
        spec_sleeping_frozen(bodies, spec_side_add_vel(bodies, idx, dv)),
{
}

proof fn lemma_side_add_pos_sleeping(bodies: Seq<Slot<Body>>, idx: Option<usize>, dp: Vec3)
    ensures
        spec_sleeping_frozen(bodies, spec_side_add_pos(bodies, idx, dp)),
{
}

/// LAW (sleep excludes a body from gravity): a sleeping body gains no
/// velocity from the gravity pass.
pub proof fn lemma_gravity_excludes_sleeping(
    bodies: Seq<Slot<Body>>,
    gravity: Vec3,
    dt: i64,
    n: int,
)
    requires
        0 <= n <= bodies.len(),
    ensures
        spec_sleeping_frozen(bodies, spec_gravity_upto(bodies, gravity, dt, n)),
    decreases n,
{
    if n > 0 {
        lemma_gravity_excludes_sleeping(bodies, gravity, dt, n - 1);
    }
}

#[verifier::rlimit(100)]
proof fn lemma_apply_contact_sleeping(bodies: Seq<Slot<Body>>, m: Manifold, acc: (i64, i64))
    ensures
        spec_sleeping_frozen(bodies, spec_apply_contact(bodies, m, acc).0),
{
    reveal(spec_apply_contact);
    assert forall|b: Seq<Slot<Body>>, idx: Option<usize>, dv: Vec3|
        #[trigger] spec_side_add_vel(b, idx, dv) == spec_side_add_vel(b, idx, dv) implies spec_sleeping_frozen(
        b,
        spec_side_add_vel(b, idx, dv),
    ) by {
        lemma_side_add_vel_sleeping(b, idx, dv);
    }
    assert(spec_sleeping_frozen(bodies, spec_apply_contact(bodies, m, acc).0));
}

proof fn lemma_solve_pass_sleeping(
    bodies: Seq<Slot<Body>>,
    ms: Seq<Manifold>,
    accs: Seq<(i64, i64)>,
    k: int,
)
    requires
        0 <= k <= ms.len(),
        accs.len() == ms.len(),
    ensures
        spec_sleeping_frozen(bodies, spec_solve_pass(bodies, ms, accs, k).0),
    decreases k,
{
    if k > 0 {
        lemma_solve_pass_sleeping(bodies, ms, accs, k - 1);
        let prev = spec_solve_pass(bodies, ms, accs, k - 1);
        lemma_apply_contact_sleeping(prev.0, ms[k - 1], prev.1[k - 1]);
        lemma_sleeping_trans(bodies, prev.0, spec_solve_pass(bodies, ms, accs, k).0);
    }
}

/// LAW (sleep excludes a body from the solve): the sequential-impulse
/// solver leaves every sleeping body entirely unchanged; only a contact
/// wake-up before the solve, or an external impulse, can bring it back
/// into play.
pub proof fn lemma_solve_excludes_sleeping(
    bodies: Seq<Slot<Body>>,
    ms: Seq<Manifold>,
    accs: Seq<(i64, i64)>,
    iters: nat,
)
    requires
        accs.len() == ms.len(),
    ensures
        spec_sleeping_frozen(bodies, spec_solve_iters(bodies, ms, accs, iters).0),
    decreases iters,
{
    if iters > 0 {
        lemma_solve_excludes_sleeping(bodies, ms, accs, (iters - 1) as nat);
        lemma_solve_iters_acc_len(bodies, ms, accs, (iters - 1) as nat);
        let prev = spec_solve_iters(bodies, ms, accs, (iters - 1) as nat);
        lemma_solve_pass_sleeping(prev.0, ms, prev.1, ms.len() as int);
        lemma_sleeping_trans(bodies, prev.0, spec_solve_iters(bodies, ms, accs, iters).0);
    }
}

/// LAW (sleep excludes a body from positional correction).
pub proof fn lemma_corrections_exclude_sleeping(
    bodies: Seq<Slot<Body>>,
    ms: Seq<Manifold>,
    k: int,
)
    requires
        0 <= k <= ms.len(),
    ensures
        spec_sleeping_frozen(bodies, spec_corrections_upto(bodies, ms, k)),
    decreases k,
{
    if k > 0 {
        lemma_corrections_exclude_sleeping(bodies, ms, k - 1);
        let prev = spec_corrections_upto(bodies, ms, k - 1);
        reveal(spec_apply_correction);
        assert forall|b: Seq<Slot<Body>>, idx: Option<usize>, dp: Vec3|
            #[trigger] spec_side_add_pos(b, idx, dp) == spec_side_add_pos(b, idx, dp) implies spec_sleeping_frozen(
            b,
            spec_side_add_pos(b, idx, dp),
        ) by {
            lemma_side_add_pos_sleeping(b, idx, dp);
        }
        assert(spec_sleeping_frozen(prev, spec_apply_correction(prev, ms[k - 1])));
        lemma_sleeping_trans(bodies, prev, spec_corrections_upto(bodies, ms, k));
    }
}

/// LAW (sleep excludes a body from integration): the position/orientation
/// integrator leaves every sleeping body entirely unchanged.
pub proof fn lemma_positions_exclude_sleeping(
    bodies: Seq<Slot<Body>>,
    cols: Seq<Slot<Collider>>,
    dt: i64,
    n: int,
)
    requires
        0 <= n <= bodies.len(),
    ensures
        spec_sleeping_frozen(bodies, spec_positions_upto(bodies, cols, dt, n)),
    decreases n,
{
    if n > 0 {
        lemma_positions_exclude_sleeping(bodies, cols, dt, n - 1);
    }
}


} // verus!
