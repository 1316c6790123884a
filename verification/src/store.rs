//! The entity store: arenas of rigid bodies, colliders and joints, each
//! addressed by a stable generation-checked handle. A removed slot's
//! generation is bumped, so handles to removed entities are rejected
//! forever, even after the slot is reused.

use vstd::prelude::*;
use crate::fx::{FX_MAX, FX_ONE, fx_add, fx_div, fx_in_range, spec_fx_add, spec_fx_div};
use crate::shape::{
    Shape, inertia_offset, shape_inertia_diag, shape_mass, shape_valid, spec_inertia_offset,
    spec_shape_inertia_diag, spec_shape_mass, spec_shape_valid,
};
use crate::vec3::{
    Quat, Vec3, q_rotate, spec_q_rotate, spec_v_add, spec_v_in_range, spec_v_scale, v_add, v_scale,
};

verus! {

/// How a body responds to forces: `Fixed` never moves, `Dynamic` obeys
/// gravity and impulses, `Kinematic` moves with its own velocity but has
/// infinite effective mass.
#[derive(Clone, Copy, PartialEq, Eq, Structural, Debug)]
pub enum BodyKind {
    Fixed,
    Dynamic,
    Kinematic,
}

/// One rigid body's simulation state.
#[derive(Clone, Copy, PartialEq, Eq, Structural, Debug)]
pub struct Body {
    pub kind: BodyKind,
    pub pos: Vec3,
    pub rot: Quat,
    pub lin_vel: Vec3,
    pub ang_vel: Vec3,
    /// Total mass, derived from the attached colliders.
    pub mass: i64,
    /// FX_ONE / mass for dynamic bodies with positive mass, 0 otherwise.
    pub inv_mass: i64,
    /// Diagonal of the inertia tensor, derived from the attached colliders.
    pub inertia: Vec3,
    pub sleeping: bool,
    /// Consecutive steps this body's kinetic energy stayed below the sleep
    /// threshold.
    pub low_energy_steps: u32,
}

/// A collision shape attached to a body (or fixed in the world when it has
/// no parent), with its surface-response properties.
#[derive(Clone, Copy, Debug)]
pub struct Collider {
    pub shape: Shape,
    pub parent: Option<BodyHandle>,
    /// Offset from the parent body's origin; world position when there is
    /// no parent.
    pub local_pos: Vec3,
    pub friction: i64,
    pub restitution: i64,
    pub density: i64,
}

/// A two-body constraint; only the attach/detach bookkeeping is modelled.
#[derive(Clone, Copy, Debug)]
pub struct Joint {
    pub body_a: BodyHandle,
    pub body_b: BodyHandle,
}

#[derive(Clone, Copy, PartialEq, Eq, Structural, Debug)]
pub struct BodyHandle {
    pub index: usize,
    pub generation: u64,
}

#[derive(Clone, Copy, PartialEq, Eq, Structural, Debug)]
pub struct ColliderHandle {
    pub index: usize,
    pub generation: u64,
}

#[derive(Clone, Copy, PartialEq, Eq, Structural, Debug)]
pub struct JointHandle {
    pub index: usize,
    pub generation: u64,
}

/// The failures an operation can report: a handle that was never issued or
/// has been removed, or an entity description that is rejected outright.
#[derive(Clone, Copy, PartialEq, Eq, Structural, Debug)]
pub enum SimError {
    InvalidHandle,
    InvalidConfiguration,
    UnknownSide,
}

/// One arena slot: a generation counter and the payload, if any.
#[derive(Clone, Copy, Debug)]
pub struct Slot<T> {
    pub generation: u64,
    pub val: Option<T>,
}

pub open spec fn spec_slot_valid<T>(s: Seq<Slot<T>>, index: int, generation: u64) -> bool {
    0 <= index < s.len() && s[index].generation == generation && s[index].val is Some
}

pub open spec fn spec_slot_get<T>(s: Seq<Slot<T>>, index: int, generation: u64) -> Option<T> {
    if spec_slot_valid(s, index, generation) {
        Some(s[index].val->0)
    } else {
        None
    }
}

/// Index of the first reusable (empty, generation not exhausted) slot at or
/// after `i`, or the arena length if there is none.
pub open spec fn spec_first_free<T>(s: Seq<Slot<T>>, i: int) -> int
    decreases s.len() - i
    when 0 <= i <= s.len()
{
    if i >= s.len() {
        s.len() as int
    } else if s[i].val is None && s[i].generation < u64::MAX {
        i
    } else {
        spec_first_free(s, i + 1)
    }
}

/// The arena after inserting `b`: the first reusable slot is filled without
/// changing its generation, or a fresh slot is appended.
pub open spec fn spec_insert_at<T>(s: Seq<Slot<T>>, b: T) -> Seq<Slot<T>> {
    let i = spec_first_free(s, 0);
    if i < s.len() {
        s.update(i, Slot { generation: s[i].generation, val: Some(b) })
    } else {
        s.push(Slot { generation: 0, val: Some(b) })
    }
}

/// The (index, generation) pair the insertion hands out.
pub open spec fn spec_insert_handle<T>(s: Seq<Slot<T>>) -> (int, u64) {
    let i = spec_first_free(s, 0);
    if i < s.len() {
        (i, s[i].generation)
    } else {
        (i, 0u64)
    }
}

/// The arena after removing the entity at `index`: the payload is dropped
/// and the generation bumped; a slot whose counter is exhausted is retired
/// for good.
pub open spec fn spec_remove_at<T>(s: Seq<Slot<T>>, index: int) -> Seq<Slot<T>>
    recommends
        0 <= index < s.len(),
{
    let g = s[index].generation;
    let g2: u64 = if g < u64::MAX {
        (g + 1) as u64
    } else {
        g
    };
    s.update(index, Slot { generation: g2, val: None })
}

/// A handle that can never again address a live entity: its generation lies
/// strictly below the slot's counter, or the slot is retired.
pub open spec fn spec_stale<T>(s: Seq<Slot<T>>, index: int, generation: u64) -> bool {
    0 <= index < s.len() && (generation < s[index].generation || (generation
        == s[index].generation && s[index].generation == u64::MAX && s[index].val is None))
}

pub(crate) fn slot_get<T: Copy>(v: &Vec<Slot<T>>, index: usize, generation: u64) -> (r: Option<T>)
    ensures
        r == spec_slot_get(v@, index as int, generation),
{
    if index < v.len() {
        let s: Slot<T> = v[index];
        if s.generation == generation {
            s.val
        } else {
            None
        }
    } else {
        None
    }
}

fn slot_find_free<T: Copy>(v: &Vec<Slot<T>>) -> (r: usize)
    ensures
        r as int == spec_first_free(v@, 0),
        r <= v@.len(),
        r < v@.len() ==> v@[r as int].val is None && v@[r as int].generation < u64::MAX,
{
    let n: usize = v.len();
    let mut i: usize = 0;
    while i < n
        invariant
            i <= n,
            n == v@.len(),
            spec_first_free(v@, 0) == spec_first_free(v@, i as int),
        decreases n - i,
    {
        let s: Slot<T> = v[i];
        if s.val.is_none() && s.generation < u64::MAX {
            return i;
        }
        i = i + 1;
    }
    i
}

fn slot_insert<T: Copy>(v: &mut Vec<Slot<T>>, b: T) -> (r: (usize, u64))
    ensures
        final(v)@ == spec_insert_at(old(v)@, b),
        (r.0 as int, r.1) == spec_insert_handle(old(v)@),
        spec_slot_valid(final(v)@, r.0 as int, r.1),
        spec_slot_get(final(v)@, r.0 as int, r.1) == Some(b),
        !spec_slot_valid(old(v)@, r.0 as int, r.1),
{
    let i: usize = slot_find_free(v);
    if i < v.len() {
        let g: u64 = v[i].generation;
        v[i] = Slot { generation: g, val: Some(b) };
        (i, g)
    } else {
        v.push(Slot { generation: 0, val: Some(b) });
        (i, 0)
    }
}

/// The entity store. All simulation state lives in these three arenas.
pub struct World {
    pub bodies: Vec<Slot<Body>>,
    pub colliders: Vec<Slot<Collider>>,
    pub joints: Vec<Slot<Joint>>,
}

/// What a caller asks a new body to be; mass properties are derived later
/// from the attached colliders.
#[derive(Clone, Copy, Debug)]
pub struct BodySpec {
    pub kind: BodyKind,
    pub pos: Vec3,
    pub rot: Quat,
    pub lin_vel: Vec3,
    pub ang_vel: Vec3,
}

#[derive(Clone, Copy, Debug)]
pub struct ColliderSpec {
    pub shape: Shape,
    pub local_pos: Vec3,
    pub friction: i64,
    pub restitution: i64,
    pub density: i64,
}

pub open spec fn spec_q_in_range(q: Quat) -> bool {
    fx_in_range(q.x as int) && fx_in_range(q.y as int) && fx_in_range(q.z as int) && fx_in_range(
        q.w as int,
    )
}

/// A body description is accepted when every component is representable.
pub open spec fn spec_body_spec_valid(bs: BodySpec) -> bool {
    spec_v_in_range(bs.pos) && spec_q_in_range(bs.rot) && spec_v_in_range(bs.lin_vel)
        && spec_v_in_range(bs.ang_vel)
}

/// A collider description is accepted when its shape is valid, its offset
/// representable, friction and density are non-negative and restitution
/// lies in [0, 1].
pub open spec fn spec_collider_spec_valid(cs: ColliderSpec) -> bool {
    spec_shape_valid(cs.shape) && spec_v_in_range(cs.local_pos) && 0 <= cs.friction <= FX_MAX && 0
        <= cs.restitution <= FX_ONE && 0 <= cs.density <= FX_MAX
}

/// The body a fresh description turns into: zero mass properties until a
/// collider is attached, awake.
pub open spec fn spec_new_body(bs: BodySpec) -> Body {
    Body {
        kind: bs.kind,
        pos: bs.pos,
        rot: bs.rot,
        lin_vel: bs.lin_vel,
        ang_vel: bs.ang_vel,
        mass: 0,
        inv_mass: 0,
        inertia: Vec3 { x: 0, y: 0, z: 0 },
        sleeping: false,
        low_energy_steps: 0,
    }
}

/// Accumulated mass and inertia diagonal of the first `n` collider slots
/// whose collider is attached to the body handle `h`.
pub open spec fn spec_mass_props_upto(s: Seq<Slot<Collider>>, h: BodyHandle, n: int) -> (int, Vec3)
    decreases n
    when 0 <= n <= s.len()
{
    if n <= 0 {
        (0int, Vec3 { x: 0, y: 0, z: 0 })
    } else {
        let acc = spec_mass_props_upto(s, h, n - 1);
        let sl = s[n - 1];
        if sl.val is Some && sl.val->0.parent == Some(h) {
            let c = sl.val->0;
            let m = spec_shape_mass(c.shape, c.density as int);
            (
                spec_fx_add(acc.0, m),
                spec_v_add(
                    acc.1,
                    spec_inertia_offset(spec_shape_inertia_diag(c.shape, m), m, c.local_pos),
                ),
            )
        } else {
            acc
        }
    }
}

/// A body refreshed with derived mass properties: dynamic bodies with
/// positive mass get inv_mass = 1/mass, everything else has infinite
/// effective mass.
pub open spec fn spec_refresh_mass(b: Body, m: int, it: Vec3) -> Body {
    Body {
        mass: m as i64,
        inv_mass: if b.kind is Dynamic && m > 0 {
            spec_fx_div(FX_ONE as int, m) as i64
        } else {
            0
        },
        inertia: it,
        ..b
    }
}

/// A collider detached from a removed parent: it keeps its world placement
/// (the parent's transform applied to its offset) and becomes parentless,
/// which means fixed in place.
pub open spec fn spec_detach_collider(c: Collider, b: Body) -> Collider {
    Collider {
        parent: None,
        local_pos: spec_v_add(b.pos, spec_q_rotate(b.rot, c.local_pos)),
        ..c
    }
}

/// The collider arena after a body is removed: every collider attached to
/// `h` is detached in place.
pub open spec fn spec_detach_upto(
    s: Seq<Slot<Collider>>,
    h: BodyHandle,
    b: Body,
    n: int,
) -> Seq<Slot<Collider>>
    decreases n
    when 0 <= n <= s.len()
{
    if n <= 0 {
        s
    } else {
        let prev = spec_detach_upto(s, h, b, n - 1);
        let sl = s[n - 1];
        if sl.val is Some && sl.val->0.parent == Some(h) {
            prev.update(
                n - 1,
                Slot { generation: sl.generation, val: Some(spec_detach_collider(sl.val->0, b)) },
            )
        } else {
            prev
        }
    }
}

/// The joint arena after a body is removed: every joint referencing `h` is
/// removed, invalidating its handle.
pub open spec fn spec_drop_joints_upto(s: Seq<Slot<Joint>>, h: BodyHandle, n: int) -> Seq<
    Slot<Joint>,
>
    decreases n
    when 0 <= n <= s.len()
{
    if n <= 0 {
        s
    } else {
        let prev = spec_drop_joints_upto(s, h, n - 1);
        let sl = s[n - 1];
        if sl.val is Some && (sl.val->0.body_a == h || sl.val->0.body_b == h) {
            spec_remove_at(prev, n - 1)
        } else {
            prev
        }
    }
}

impl World {
    pub open spec fn spec_body_valid(self, h: BodyHandle) -> bool {
        spec_slot_valid(self.bodies@, h.index as int, h.generation)
    }

    pub open spec fn spec_body_at(self, h: BodyHandle) -> Body {
        self.bodies@[h.index as int].val->0
    }

    pub open spec fn spec_collider_valid(self, h: ColliderHandle) -> bool {
        spec_slot_valid(self.colliders@, h.index as int, h.generation)
    }

    pub fn new() -> (r: World)
        ensures
            r.bodies@.len() == 0,
            r.colliders@.len() == 0,
            r.joints@.len() == 0,
    {
        World { bodies: Vec::new(), colliders: Vec::new(), joints: Vec::new() }
    }

    /// Insert a body. Fails only on an unrepresentable description; the
    /// returned handle addresses exactly the inserted body.
    pub fn insert_body(&mut self, bs: BodySpec) -> (r: Result<BodyHandle, SimError>)
        ensures
            spec_body_spec_valid(bs) ==> r is Ok && final(self).bodies@ == spec_insert_at(
                old(self).bodies@,
                spec_new_body(bs),
            ) && (r->Ok_0.index as int, r->Ok_0.generation) == spec_insert_handle(old(self).bodies@)
                && final(self).spec_body_valid(r->Ok_0) && final(self).spec_body_at(r->Ok_0)
                == spec_new_body(bs) && !old(self).spec_body_valid(r->Ok_0),
            !spec_body_spec_valid(bs) ==> r == Err::<BodyHandle, SimError>(
                SimError::InvalidConfiguration,
            ) && final(self).bodies@ == old(self).bodies@,
            final(self).colliders@ == old(self).colliders@,
            final(self).joints@ == old(self).joints@,
    {
        if !(body_spec_valid(&bs)) {
            return Err(SimError::InvalidConfiguration);
        }
        let b = Body {
            kind: bs.kind,
            pos: bs.pos,
            rot: bs.rot,
            lin_vel: bs.lin_vel,
            ang_vel: bs.ang_vel,
            mass: 0,
            inv_mass: 0,
            inertia: Vec3 { x: 0, y: 0, z: 0 },
            sleeping: false,
            low_energy_steps: 0,
        };
        let (i, g) = slot_insert(&mut self.bodies, b);
        Ok(BodyHandle { index: i, generation: g })
    }

    /// Look a body up; `None` exactly when the handle is not (or no longer)
    /// valid.
    pub fn get_body(&self, h: BodyHandle) -> (r: Option<Body>)
        ensures
            r == spec_slot_get(self.bodies@, h.index as int, h.generation),
            r is Some <==> self.spec_body_valid(h),
            r is Some ==> r->0 == self.spec_body_at(h),
    {
        slot_get(&self.bodies, h.index, h.generation)
    }

    pub fn get_collider(&self, h: ColliderHandle) -> (r: Option<Collider>)
        ensures
            r == spec_slot_get(self.colliders@, h.index as int, h.generation),
    {
        slot_get(&self.colliders, h.index, h.generation)
    }

    /// Remove a body: its slot is retired (handle becomes stale forever),
    /// colliders attached to it are detached in place, joints referencing
    /// it are removed.
    pub fn remove_body(&mut self, h: BodyHandle) -> (r: Result<(), SimError>)
        ensures
            old(self).spec_body_valid(h) ==> r is Ok && final(self).bodies@ == spec_remove_at(
                old(self).bodies@,
                h.index as int,
            ) && final(self).colliders@ == spec_detach_upto(
                old(self).colliders@,
                h,
                old(self).spec_body_at(h),
                old(self).colliders@.len() as int,
            ) && final(self).joints@ == spec_drop_joints_upto(
                old(self).joints@,
                h,
                old(self).joints@.len() as int,
            ) && spec_stale(final(self).bodies@, h.index as int, h.generation),
            !old(self).spec_body_valid(h) ==> r == Err::<(), SimError>(SimError::InvalidHandle)
                && final(self).bodies@ == old(self).bodies@ && final(self).colliders@ == old(self).colliders@ && final(self).joints@ == old(self).joints@,
    {
        let body = match self.get_body(h) {
            Some(b) => b,
            None => {
                return Err(SimError::InvalidHandle);
            },
        };
        // Retire the body's slot.
        let g: u64 = self.bodies[h.index].generation;
        let g2: u64 = if g < u64::MAX {
            g + 1
        } else {
            g
        };
        self.bodies[h.index] = Slot { generation: g2, val: None };
        // Detach this body's colliders, freezing them at their world
        // placement.
        let n: usize = self.colliders.len();
        let mut i: usize = 0;
        while i < n
            invariant
                i <= n,
                n == old(self).colliders@.len(),
                self.colliders@.len() == n,
                self.bodies@ == spec_remove_at(old(self).bodies@, h.index as int),
                self.joints@ == old(self).joints@,
                self.colliders@ == spec_detach_upto(old(self).colliders@, h, body, i as int),
                body == old(self).spec_body_at(h),
                forall|j: int| i <= j < n ==> self.colliders@[j] == old(self).colliders@[j],
            decreases n - i,
        {
            let sl: Slot<Collider> = self.colliders[i];
            match sl.val {
                Some(c) => {
                    if handle_opt_eq(&c.parent, h) {
                        let moved = Collider {
                            parent: None,
                            local_pos: v_add(body.pos, q_rotate(body.rot, c.local_pos)),
                            shape: c.shape,
                            friction: c.friction,
                            restitution: c.restitution,
                            density: c.density,
                        };
                        self.colliders[i] = Slot { generation: sl.generation, val: Some(moved) };
                    }
                },
                None => {},
            }
            i = i + 1;
        }
        // Drop the joints that reference this body.
        let jn: usize = self.joints.len();
        let mut j: usize = 0;
        while j < jn
            invariant
                j <= jn,
                jn == old(self).joints@.len(),
                self.joints@.len() == jn,
                self.bodies@ == spec_remove_at(old(self).bodies@, h.index as int),
                self.colliders@ == spec_detach_upto(
                    old(self).colliders@,
                    h,
                    body,
                    old(self).colliders@.len() as int,
                ),
                self.joints@ == spec_drop_joints_upto(old(self).joints@, h, j as int),
                forall|k: int| j <= k < jn ==> self.joints@[k] == old(self).joints@[k],
            decreases jn - j,
        {
            let sl: Slot<Joint> = self.joints[j];
            match sl.val {
                Some(jt) => {
                    if (jt.body_a.index == h.index && jt.body_a.generation == h.generation) || (
                    jt.body_b.index == h.index && jt.body_b.generation == h.generation) {
                        let g: u64 = sl.generation;
                        let g2: u64 = if g < u64::MAX {
                            g + 1
                        } else {
                            g
                        };
                        self.joints[j] = Slot { generation: g2, val: None };
                    }
                },
                None => {},
            }
            j = j + 1;
        }
        Ok(())
    }

    /// Insert a collider, optionally attached to a parent body whose mass
    /// and inertia are then re-derived from all of its colliders.
    pub fn insert_collider(&mut self, cs: ColliderSpec, parent: Option<BodyHandle>) -> (r: Result<
        ColliderHandle,
        SimError,
    >)
        ensures
            !spec_collider_spec_valid(cs) ==> r == Err::<ColliderHandle, SimError>(
                SimError::InvalidConfiguration,
            ) && final(self).bodies@ == old(self).bodies@ && final(self).colliders@ == old(self).colliders@,
            spec_collider_spec_valid(cs) && parent is Some && !old(self).spec_body_valid(
                parent->0,
            ) ==> r == Err::<ColliderHandle, SimError>(SimError::InvalidHandle) && final(self).bodies@ == old(self).bodies@ && final(self).colliders@ == old(self).colliders@,
            spec_collider_spec_valid(cs) && (parent is None || old(self).spec_body_valid(
                parent->0,
            )) ==> r is Ok && final(self).colliders@ == spec_insert_at(
                old(self).colliders@,
                (Collider {
                    shape: cs.shape,
                    parent: parent,
                    local_pos: cs.local_pos,
                    friction: cs.friction,
                    restitution: cs.restitution,
                    density: cs.density,
                }),
            ) && (r->Ok_0.index as int, r->Ok_0.generation) == spec_insert_handle(
                old(self).colliders@,
            ),
            spec_collider_spec_valid(cs) && parent is None ==> final(self).bodies@ == old(self).bodies@,
            spec_collider_spec_valid(cs) && parent is Some && old(self).spec_body_valid(parent->0)
                ==> final(self).bodies@ == old(self).bodies@.update(
                parent->0.index as int,
                (Slot {
                    generation: parent->0.generation,
                    val: Some(
                        spec_refresh_mass(
                            old(self).spec_body_at(parent->0),
                            spec_mass_props_upto(
                                final(self).colliders@,
                                parent->0,
                                final(self).colliders@.len() as int,
                            ).0,
                            spec_mass_props_upto(
                                final(self).colliders@,
                                parent->0,
                                final(self).colliders@.len() as int,
                            ).1,
                        ),
                    ),
                }),
            ),
            final(self).joints@ == old(self).joints@,
    {
        if !(collider_spec_valid(&cs)) {
            return Err(SimError::InvalidConfiguration);
        }
        match parent {
            Some(ph) => {
                let pb = match self.get_body(ph) {
                    Some(b) => b,
                    None => {
                        return Err(SimError::InvalidHandle);
                    },
                };
                let c = Collider {
                    shape: cs.shape,
                    parent: Some(ph),
                    local_pos: cs.local_pos,
                    friction: cs.friction,
                    restitution: cs.restitution,
                    density: cs.density,
                };
                let (i, g) = slot_insert(&mut self.colliders, c);
                let (m, it) = self.mass_props(ph);
                let nb = Body {
                    mass: m,
                    inv_mass: if matches!(pb.kind, BodyKind::Dynamic) && m > 0 {
                        fx_div(FX_ONE, m)
                    } else {
                        0
                    },
                    inertia: it,
                    kind: pb.kind,
                    pos: pb.pos,
                    rot: pb.rot,
                    lin_vel: pb.lin_vel,
                    ang_vel: pb.ang_vel,
                    sleeping: pb.sleeping,
                    low_energy_steps: pb.low_energy_steps,
                };
                self.bodies[ph.index] = Slot { generation: ph.generation, val: Some(nb) };
                Ok(ColliderHandle { index: i, generation: g })
            },
            None => {
                let c = Collider {
                    shape: cs.shape,
                    parent: None,
                    local_pos: cs.local_pos,
                    friction: cs.friction,
                    restitution: cs.restitution,
                    density: cs.density,
                };
                let (i, g) = slot_insert(&mut self.colliders, c);
                Ok(ColliderHandle { index: i, generation: g })
            },
        }
    }

    /// Sum of the mass and inertia contributions of every collider attached
    /// to `h`.
    fn mass_props(&self, h: BodyHandle) -> (r: (i64, Vec3))
        ensures
            (r.0 as int, r.1) == spec_mass_props_upto(
                self.colliders@,
                h,
                self.colliders@.len() as int,
            ),
    {
        let n: usize = self.colliders.len();
        let mut i: usize = 0;
        let mut m: i64 = 0;
        let mut it: Vec3 = Vec3 { x: 0, y: 0, z: 0 };
        while i < n
            invariant
                i <= n,
                n == self.colliders@.len(),
                (m as int, it) == spec_mass_props_upto(self.colliders@, h, i as int),
            decreases n - i,
        {
            let sl: Slot<Collider> = self.colliders[i];
            match sl.val {
                Some(c) => {
                    if handle_opt_eq(&c.parent, h) {
                        let cm: i64 = shape_mass(&c.shape, c.density);
                        m = fx_add(m, cm);
                        it = v_add(it, inertia_offset(shape_inertia_diag(&c.shape, cm), cm, c.local_pos));
                    }
                },
                None => {},
            }
            i = i + 1;
        }
        (m, it)
    }

    /// Link two live bodies with a joint (bookkeeping only).
    pub fn insert_joint(&mut self, a: BodyHandle, b: BodyHandle) -> (r: Result<
        JointHandle,
        SimError,
    >)
        ensures
            old(self).spec_body_valid(a) && old(self).spec_body_valid(b) ==> r is Ok && final(self).joints@ == spec_insert_at(old(self).joints@, (Joint { body_a: a, body_b: b })) && (
            r->Ok_0.index as int, r->Ok_0.generation) == spec_insert_handle(old(self).joints@),
            !(old(self).spec_body_valid(a) && old(self).spec_body_valid(b)) ==> r == Err::<
                JointHandle,
                SimError,
            >(SimError::InvalidHandle) && final(self).joints@ == old(self).joints@,
            final(self).bodies@ == old(self).bodies@,
            final(self).colliders@ == old(self).colliders@,
    {
        let va = self.get_body(a);
        let vb = self.get_body(b);
        if va.is_some() && vb.is_some() {
            let (i, g) = slot_insert(&mut self.joints, Joint { body_a: a, body_b: b });
            Ok(JointHandle { index: i, generation: g })
        } else {
            Err(SimError::InvalidHandle)
        }
    }

    pub fn remove_joint(&mut self, h: JointHandle) -> (r: Result<(), SimError>)
        ensures
            spec_slot_valid(old(self).joints@, h.index as int, h.generation) ==> r is Ok && final(self).joints@ == spec_remove_at(old(self).joints@, h.index as int),
            !spec_slot_valid(old(self).joints@, h.index as int, h.generation) ==> r == Err::<
                (),
                SimError,
            >(SimError::InvalidHandle) && final(self).joints@ == old(self).joints@,
            final(self).bodies@ == old(self).bodies@,
            final(self).colliders@ == old(self).colliders@,
    {
        match slot_get(&self.joints, h.index, h.generation) {
            Some(_) => {
                let g: u64 = self.joints[h.index].generation;
                let g2: u64 = if g < u64::MAX {
                    g + 1
                } else {
                    g
                };
                self.joints[h.index] = Slot { generation: g2, val: None };
                Ok(())
            },
            None => Err(SimError::InvalidHandle),
        }
    }

    /// Apply an external impulse to a body's linear velocity; this wakes
    /// the body.
    pub fn apply_impulse(&mut self, h: BodyHandle, imp: Vec3) -> (r: Result<(), SimError>)
        ensures
            old(self).spec_body_valid(h) ==> r is Ok && final(self).bodies@ == old(self).bodies@.update(
                h.index as int,
                (Slot {
                    generation: h.generation,
                    val: Some(
                        (Body {
                            lin_vel: spec_v_add(
                                old(self).spec_body_at(h).lin_vel,
                                spec_v_scale(imp, old(self).spec_body_at(h).inv_mass as int),
                            ),
                            sleeping: false,
                            low_energy_steps: 0,
                            ..old(self).spec_body_at(h)
                        }),
                    ),
                }),
            ),
            !old(self).spec_body_valid(h) ==> r == Err::<(), SimError>(SimError::InvalidHandle)
                && final(self).bodies@ == old(self).bodies@,
            final(self).colliders@ == old(self).colliders@,
            final(self).joints@ == old(self).joints@,
    {
        match self.get_body(h) {
            Some(b) => {
                let nb = Body {
                    lin_vel: v_add(b.lin_vel, v_scale(imp, b.inv_mass)),
                    sleeping: false,
                    low_energy_steps: 0,
                    kind: b.kind,
                    pos: b.pos,
                    rot: b.rot,
                    ang_vel: b.ang_vel,
                    mass: b.mass,
                    inv_mass: b.inv_mass,
                    inertia: b.inertia,
                };
                self.bodies[h.index] = Slot { generation: h.generation, val: Some(nb) };
                Ok(())
            },
            None => Err(SimError::InvalidHandle),
        }
    }
}

/// The first reusable slot really is reusable: empty, with a generation
/// that is not exhausted.
pub proof fn lemma_first_free_props<T>(s: Seq<Slot<T>>, i: int)
    requires
        0 <= i <= s.len(),
    ensures
        i <= spec_first_free(s, i) <= s.len(),
        spec_first_free(s, i) < s.len() ==> s[spec_first_free(s, i)].val is None && s[
            spec_first_free(s, i)
        ].generation < u64::MAX,
    decreases s.len() - i,
{
    if i < s.len() && !(s[i].val is None && s[i].generation < u64::MAX) {
        lemma_first_free_props(s, i + 1);
    }
}

/// LAW: a stale handle never resolves to an entity.
pub proof fn lemma_stale_get_none<T>(s: Seq<Slot<T>>, index: int, generation: u64)
    requires
        spec_stale(s, index, generation),
    ensures
        spec_slot_get(s, index, generation) is None,
{
}

/// LAW: removing an entity leaves its handle stale.
pub proof fn lemma_remove_makes_stale<T>(s: Seq<Slot<T>>, index: int, generation: u64)
    requires
        spec_slot_valid(s, index, generation),
    ensures
        spec_stale(spec_remove_at(s, index), index, generation),
{
}

/// LAW: a stale handle stays stale across any later insertion — in
/// particular one that reuses the same slot.
pub proof fn lemma_insert_preserves_stale<T>(s: Seq<Slot<T>>, b: T, index: int, generation: u64)
    requires
        spec_stale(s, index, generation),
    ensures
        spec_stale(spec_insert_at(s, b), index, generation),
{
    lemma_first_free_props(s, 0);
}

/// LAW: a stale handle stays stale across any later removal.
pub proof fn lemma_remove_preserves_stale<T>(
    s: Seq<Slot<T>>,
    rindex: int,
    index: int,
    generation: u64,
)
    requires
        spec_stale(s, index, generation),
        0 <= rindex < s.len(),
    ensures
        spec_stale(spec_remove_at(s, rindex), index, generation),
{
}

/// LAW (handle invalidation): once an entity is removed, looking its handle
/// up fails, and keeps failing after a new entity is inserted — even when
/// the insertion reuses the removed entity's slot.
pub proof fn lemma_removed_handle_rejected<T>(
    s: Seq<Slot<T>>,
    index: int,
    generation: u64,
    b: T,
)
    requires
        spec_slot_valid(s, index, generation),
    ensures
        spec_slot_get(spec_remove_at(s, index), index, generation) is None,
        spec_slot_get(spec_insert_at(spec_remove_at(s, index), b), index, generation) is None,
        spec_stale(spec_insert_at(spec_remove_at(s, index), b), index, generation),
{
    lemma_remove_makes_stale(s, index, generation);
    lemma_stale_get_none(spec_remove_at(s, index), index, generation);
    lemma_insert_preserves_stale(spec_remove_at(s, index), b, index, generation);
    lemma_stale_get_none(spec_insert_at(spec_remove_at(s, index), b), index, generation);
}

fn handle_opt_eq(p: &Option<BodyHandle>, h: BodyHandle) -> (r: bool)
    ensures
        r == (*p == Some(h)),
{
    match p {
        Some(ph) => ph.index == h.index && ph.generation == h.generation,
        None => false,
    }
}

pub fn body_spec_valid(bs: &BodySpec) -> (r: bool)
    ensures
        r == spec_body_spec_valid(*bs),
{
    v_in_range(bs.pos) && q_in_range(bs.rot) && v_in_range(bs.lin_vel) && v_in_range(bs.ang_vel)
}

pub fn collider_spec_valid(cs: &ColliderSpec) -> (r: bool)
    ensures
        r == spec_collider_spec_valid(*cs),
{
    shape_valid(&cs.shape) && v_in_range(cs.local_pos) && 0 <= cs.friction && cs.friction <= FX_MAX
        && 0 <= cs.restitution && cs.restitution <= FX_ONE && 0 <= cs.density && cs.density
        <= FX_MAX
}

fn v_in_range(v: Vec3) -> (r: bool)
    ensures
        r == spec_v_in_range(v),
{
    -FX_MAX <= v.x && v.x <= FX_MAX && -FX_MAX <= v.y && v.y <= FX_MAX && -FX_MAX <= v.z && v.z
        <= FX_MAX
}

fn q_in_range(q: Quat) -> (r: bool)
    ensures
        r == spec_q_in_range(q),
{
    -FX_MAX <= q.x && q.x <= FX_MAX && -FX_MAX <= q.y && q.y <= FX_MAX && -FX_MAX <= q.z && q.z
        <= FX_MAX && -FX_MAX <= q.w && q.w <= FX_MAX
}

} // verus!
