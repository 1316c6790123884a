//! Narrow phase: exact shape-pair contact tests. For each candidate pair
//! it produces at most one contact manifold; the manifold's normal always
//! points from the second collider toward the first.

use vstd::prelude::*;
use crate::fx::{
    FX_ONE, fx_abs, fx_add, fx_div, fx_mul, fx_neg, fx_sub, spec_fx_abs, spec_fx_add, spec_fx_div,
    spec_fx_mul, spec_fx_neg, spec_fx_sub,
};
use crate::shape::Shape;
use crate::store::{Body, Collider, Slot};
use crate::broad::{
    collider_body_index, collider_pos, collider_rot, collider_vel, spec_collider_body_index,
    spec_collider_pos, spec_collider_rot, spec_collider_vel,
};
use crate::vec3::{
    Quat, Vec3, q_conj, q_rotate, spec_q_conj, spec_q_rotate, spec_v_add, spec_v_dot, spec_v_len,
    spec_v_neg, spec_v_scale, spec_v_sub, v_add, v_dot, v_len, v_neg, v_scale, v_sub,
};

verus! {

/// Contacts are emitted while the shapes are within this distance of
/// touching.
pub const CONTACT_MARGIN: i64 = 5_000;

/// Fixed-point representation of -1.0.
pub const NEG_FX_ONE: i64 = -1_000_000;

/// Below this approach speed restitution is ignored, so resting contacts
/// settle instead of jittering.
pub const RESTITUTION_THRESHOLD: i64 = 300_000;

/// One contact between two colliders: a single deepest contact point, the
/// shared normal (pointing from the second collider toward the first), the
/// penetration depth, the combined surface properties, and the pre-solve
/// target separating velocity derived from restitution.
#[derive(Clone, Copy, Debug)]
pub struct Manifold {
    /// Arena index of the first collider's parent body, if dynamic state
    /// is attached.
    pub body_a: Option<usize>,
    pub body_b: Option<usize>,
    pub normal: Vec3,
    pub point: Vec3,
    pub pen: i64,
    pub friction: i64,
    pub restitution: i64,
    /// Separating velocity the solver must restore along the normal:
    /// -restitution * (pre-contact relative normal velocity), or 0 below
    /// the restitution threshold.
    pub target_vel: i64,
}

/// A raw geometric contact: (normal, point, penetration).
#[verifier::opaque]
pub open spec fn spec_contact_sphere_sphere(p1: Vec3, r1: i64, p2: Vec3, r2: i64) -> Option<
    (Vec3, Vec3, i64),
> {
    let d = spec_v_sub(p1, p2);
    let len = spec_v_len(d);
    let pen = spec_fx_sub(spec_fx_add(r1 as int, r2 as int), len);
    if pen >= -(CONTACT_MARGIN as int) {
        let n = if len > 0 {
            Vec3 {
                x: spec_fx_div(d.x as int, len) as i64,
                y: spec_fx_div(d.y as int, len) as i64,
                z: spec_fx_div(d.z as int, len) as i64,
            }
        } else {
            Vec3 { x: 0, y: FX_ONE, z: 0 }
        };
        Some((n, spec_v_sub(p1, spec_v_scale(n, r1 as int)), pen as i64))
    } else {
        None
    }
}

pub fn contact_sphere_sphere(p1: Vec3, r1: i64, p2: Vec3, r2: i64) -> (r: Option<(Vec3, Vec3, i64)>)
    ensures
        r == spec_contact_sphere_sphere(p1, r1, p2, r2),
{
    proof {
        reveal(spec_contact_sphere_sphere);
    }
    let d = v_sub(p1, p2);
    let len: i64 = v_len(d);
    let pen: i64 = fx_sub(fx_add(r1, r2), len);
    if pen >= -CONTACT_MARGIN {
        let n = if len > 0 {
            Vec3 { x: fx_div(d.x, len), y: fx_div(d.y, len), z: fx_div(d.z, len) }
        } else {
            Vec3 { x: 0, y: FX_ONE, z: 0 }
        };
        Some((n, v_sub(p1, v_scale(n, r1)), pen))
    } else {
        None
    }
}

/// Clamp one coordinate to [-h, h].
pub open spec fn spec_clamp1(v: i64, h: i64) -> i64 {
    if v as int > h as int {
        h
    } else if (v as int) < spec_fx_neg(h as int) {
        spec_fx_neg(h as int) as i64
    } else {
        v
    }
}

fn clamp1(v: i64, h: i64) -> (r: i64)
    ensures
        r == spec_clamp1(v, h),
{
    let nh: i64 = fx_neg(h);
    if v > h {
        h
    } else if v < nh {
        nh
    } else {
        v
    }
}

/// Sphere against an oriented cuboid: clamp the sphere center (taken to
/// cuboid-local axes) onto the box; outside, the contact normal runs from
/// the closest point to the center; inside, it is the axis of least
/// separation. The returned normal points from the cuboid toward the
/// sphere.
#[verifier::opaque]
pub open spec fn spec_contact_sphere_cuboid(
    ps: Vec3,
    r: i64,
    pb: Vec3,
    qb: Quat,
    hx: i64,
    hy: i64,
    hz: i64,
) -> Option<(Vec3, Vec3, i64)> {
    let local = spec_q_rotate(spec_q_conj(qb), spec_v_sub(ps, pb));
    let cl = Vec3 {
        x: spec_clamp1(local.x, hx),
        y: spec_clamp1(local.y, hy),
        z: spec_clamp1(local.z, hz),
    };
    if cl != local {
        // Center outside the box.
        let diff = spec_v_sub(local, cl);
        let dist = spec_v_len(diff);
        let pen = spec_fx_sub(r as int, dist);
        if pen >= -(CONTACT_MARGIN as int) {
            let nl = if dist > 0 {
                Vec3 {
                    x: spec_fx_div(diff.x as int, dist) as i64,
                    y: spec_fx_div(diff.y as int, dist) as i64,
                    z: spec_fx_div(diff.z as int, dist) as i64,
                }
            } else {
                Vec3 { x: 0, y: FX_ONE, z: 0 }
            };
            Some(
                (
                    spec_q_rotate(qb, nl),
                    spec_v_add(pb, spec_q_rotate(qb, cl)),
                    pen as i64,
                ),
            )
        } else {
            None
        }
    } else {
        // Center inside the box: least separation axis.
        let dx = spec_fx_sub(hx as int, spec_fx_abs(local.x as int));
        let dy = spec_fx_sub(hy as int, spec_fx_abs(local.y as int));
        let dz = spec_fx_sub(hz as int, spec_fx_abs(local.z as int));
        let nl = if dx <= dy && dx <= dz {
            Vec3 { x: if local.x >= 0 { FX_ONE } else { NEG_FX_ONE }, y: 0, z: 0 }
        } else if dy <= dz {
            Vec3 { x: 0, y: if local.y >= 0 { FX_ONE } else { NEG_FX_ONE }, z: 0 }
        } else {
            Vec3 { x: 0, y: 0, z: if local.z >= 0 { FX_ONE } else { NEG_FX_ONE } }
        };
        let d = if dx <= dy && dx <= dz {
            dx
        } else if dy <= dz {
            dy
        } else {
            dz
        };
        Some(
            (
                spec_q_rotate(qb, nl),
                spec_v_add(pb, spec_q_rotate(qb, local)),
                spec_fx_add(r as int, d) as i64,
            ),
        )
    }
}

pub fn contact_sphere_cuboid(
    ps: Vec3,
    r: i64,
    pb: Vec3,
    qb: Quat,
    hx: i64,
    hy: i64,
    hz: i64,
) -> (res: Option<(Vec3, Vec3, i64)>)
    ensures
        res == spec_contact_sphere_cuboid(ps, r, pb, qb, hx, hy, hz),
{
    proof {
        reveal(spec_contact_sphere_cuboid);
    }
    let local = q_rotate(q_conj(qb), v_sub(ps, pb));
    let cl = Vec3 { x: clamp1(local.x, hx), y: clamp1(local.y, hy), z: clamp1(local.z, hz) };
    if !(cl.x == local.x && cl.y == local.y && cl.z == local.z) {
        let diff = v_sub(local, cl);
        let dist: i64 = v_len(diff);
        let pen: i64 = fx_sub(r, dist);
        if pen >= -CONTACT_MARGIN {
            let nl = if dist > 0 {
                Vec3 { x: fx_div(diff.x, dist), y: fx_div(diff.y, dist), z: fx_div(diff.z, dist) }
            } else {
                Vec3 { x: 0, y: FX_ONE, z: 0 }
            };
            Some((q_rotate(qb, nl), v_add(pb, q_rotate(qb, cl)), pen))
        } else {
            None
        }
    } else {
        let dx: i64 = fx_sub(hx, fx_abs(local.x));
        let dy: i64 = fx_sub(hy, fx_abs(local.y));
        let dz: i64 = fx_sub(hz, fx_abs(local.z));
        let nl = if dx <= dy && dx <= dz {
            Vec3 { x: if local.x >= 0 { FX_ONE } else { NEG_FX_ONE }, y: 0, z: 0 }
        } else if dy <= dz {
            Vec3 { x: 0, y: if local.y >= 0 { FX_ONE } else { NEG_FX_ONE }, z: 0 }
        } else {
            Vec3 { x: 0, y: 0, z: if local.z >= 0 { FX_ONE } else { NEG_FX_ONE } }
        };
        let d: i64 = if dx <= dy && dx <= dz {
            dx
        } else if dy <= dz {
            dy
        } else {
            dz
        };
        Some((q_rotate(qb, nl), v_add(pb, q_rotate(qb, local)), fx_add(r, d)))
    }
}

/// Outward normal of a plane collider: its orientation applied to +Y.
pub open spec fn spec_plane_normal(qp: Quat) -> Vec3 {
    spec_q_rotate(qp, Vec3 { x: 0, y: FX_ONE, z: 0 })
}

pub fn plane_normal(qp: Quat) -> (r: Vec3)
    ensures
        r == spec_plane_normal(qp),
{
    q_rotate(qp, Vec3 { x: 0, y: FX_ONE, z: 0 })
}

/// Sphere against a half-space plane. The normal points from the plane
/// toward the sphere side.
#[verifier::opaque]
pub open spec fn spec_contact_sphere_plane(ps: Vec3, r: i64, pp: Vec3, qp: Quat) -> Option<
    (Vec3, Vec3, i64),
> {
    let n = spec_plane_normal(qp);
    let s = spec_v_dot(spec_v_sub(ps, pp), n);
    let pen = spec_fx_sub(r as int, s);
    if pen >= -(CONTACT_MARGIN as int) {
        Some((n, spec_v_sub(ps, spec_v_scale(n, s)), pen as i64))
    } else {
        None
    }
}

pub fn contact_sphere_plane(ps: Vec3, r: i64, pp: Vec3, qp: Quat) -> (res: Option<
    (Vec3, Vec3, i64),
>)
    ensures
        res == spec_contact_sphere_plane(ps, r, pp, qp),
{
    proof {
        reveal(spec_contact_sphere_plane);
    }
    let n = plane_normal(qp);
    let s: i64 = v_dot(v_sub(ps, pp), n);
    let pen: i64 = fx_sub(r, s);
    if pen >= -CONTACT_MARGIN {
        Some((n, v_sub(ps, v_scale(n, s)), pen))
    } else {
        None
    }
}

/// The deeper of two (signed distance, point) pairs.
pub open spec fn spec_deeper(a: (int, Vec3), b: (int, Vec3)) -> (int, Vec3) {
    if a.0 <= b.0 {
        a
    } else {
        b
    }
}

/// Signed distance of one cuboid corner from a plane, with the corner.
pub open spec fn spec_corner_depth(
    pb: Vec3,
    qb: Quat,
    c: Vec3,
    pp: Vec3,
    n: Vec3,
) -> (int, Vec3) {
    let w = spec_v_add(pb, spec_q_rotate(qb, c));
    (spec_v_dot(spec_v_sub(w, pp), n), w)
}

fn corner_depth(pb: Vec3, qb: Quat, c: Vec3, pp: Vec3, n: Vec3) -> (r: (i64, Vec3))
    ensures
        (r.0 as int, r.1) == spec_corner_depth(pb, qb, c, pp, n),
{
    let w = v_add(pb, q_rotate(qb, c));
    (v_dot(v_sub(w, pp), n), w)
}

/// Cuboid against a half-space plane: the deepest of the eight corners
/// makes the contact. The normal is the plane normal.
#[verifier::opaque]
pub open spec fn spec_contact_cuboid_plane(
    pb: Vec3,
    qb: Quat,
    hx: i64,
    hy: i64,
    hz: i64,
    pp: Vec3,
    qp: Quat,
) -> Option<(Vec3, Vec3, i64)> {
    let n = spec_plane_normal(qp);
    let nx = spec_fx_neg(hx as int) as i64;
    let ny = spec_fx_neg(hy as int) as i64;
    let nz = spec_fx_neg(hz as int) as i64;
    let d = spec_deeper(
        spec_deeper(
            spec_deeper(
                spec_corner_depth(pb, qb, Vec3 { x: hx, y: hy, z: hz }, pp, n),
                spec_corner_depth(pb, qb, Vec3 { x: hx, y: hy, z: nz }, pp, n),
            ),
            spec_deeper(
                spec_corner_depth(pb, qb, Vec3 { x: hx, y: ny, z: hz }, pp, n),
                spec_corner_depth(pb, qb, Vec3 { x: hx, y: ny, z: nz }, pp, n),
            ),
        ),
        spec_deeper(
            spec_deeper(
                spec_corner_depth(pb, qb, Vec3 { x: nx, y: hy, z: hz }, pp, n),
                spec_corner_depth(pb, qb, Vec3 { x: nx, y: hy, z: nz }, pp, n),
            ),
            spec_deeper(
                spec_corner_depth(pb, qb, Vec3 { x: nx, y: ny, z: hz }, pp, n),
                spec_corner_depth(pb, qb, Vec3 { x: nx, y: ny, z: nz }, pp, n),
            ),
        ),
    );
    let pen = spec_fx_neg(d.0);
    if pen >= -(CONTACT_MARGIN as int) {
        Some((n, d.1, pen as i64))
    } else {
        None
    }
}

fn deeper(a: (i64, Vec3), b: (i64, Vec3)) -> (r: (i64, Vec3))
    ensures
        (r.0 as int, r.1) == spec_deeper((a.0 as int, a.1), (b.0 as int, b.1)),
{
    if a.0 <= b.0 {
        a
    } else {
        b
    }
}

pub fn contact_cuboid_plane(
    pb: Vec3,
    qb: Quat,
    hx: i64,
    hy: i64,
    hz: i64,
    pp: Vec3,
    qp: Quat,
) -> (res: Option<(Vec3, Vec3, i64)>)
    ensures
        res == spec_contact_cuboid_plane(pb, qb, hx, hy, hz, pp, qp),
{
    proof {
        reveal(spec_contact_cuboid_plane);
    }
    let n = plane_normal(qp);
    let nx: i64 = fx_neg(hx);
    let ny: i64 = fx_neg(hy);
    let nz: i64 = fx_neg(hz);
    let d = deeper(
        deeper(
            deeper(
                corner_depth(pb, qb, Vec3 { x: hx, y: hy, z: hz }, pp, n),
                corner_depth(pb, qb, Vec3 { x: hx, y: hy, z: nz }, pp, n),
            ),
            deeper(
                corner_depth(pb, qb, Vec3 { x: hx, y: ny, z: hz }, pp, n),
                corner_depth(pb, qb, Vec3 { x: hx, y: ny, z: nz }, pp, n),
            ),
        ),
        deeper(
            deeper(
                corner_depth(pb, qb, Vec3 { x: nx, y: hy, z: hz }, pp, n),
                corner_depth(pb, qb, Vec3 { x: nx, y: hy, z: nz }, pp, n),
            ),
            deeper(
                corner_depth(pb, qb, Vec3 { x: nx, y: ny, z: hz }, pp, n),
                corner_depth(pb, qb, Vec3 { x: nx, y: ny, z: nz }, pp, n),
            ),
        ),
    );
    let pen: i64 = fx_neg(d.0);
    if pen >= -CONTACT_MARGIN {
        Some((n, d.1, pen))
    } else {
        None
    }
}

pub open spec fn spec_q_is_identity(q: Quat) -> bool {
    q.x == 0 && q.y == 0 && q.z == 0 && q.w == FX_ONE
}

/// Axis-aligned cuboid pair: per-axis overlap of the two boxes; the axis
/// of least overlap carries the contact. Rotated cuboid pairs are outside
/// the supported dispatch set and produce no manifold.
#[verifier::opaque]
pub open spec fn spec_contact_cuboid_cuboid(
    pa: Vec3,
    qa: Quat,
    ha: Vec3,
    pb: Vec3,
    qb: Quat,
    hb: Vec3,
) -> Option<(Vec3, Vec3, i64)> {
    if !(spec_q_is_identity(qa) && spec_q_is_identity(qb)) {
        None
    } else {
        let amin = spec_v_sub(pa, ha);
        let amax = spec_v_add(pa, ha);
        let bmin = spec_v_sub(pb, hb);
        let bmax = spec_v_add(pb, hb);
        let lox = if amin.x >= bmin.x { amin.x } else { bmin.x };
        let hix = if amax.x <= bmax.x { amax.x } else { bmax.x };
        let loy = if amin.y >= bmin.y { amin.y } else { bmin.y };
        let hiy = if amax.y <= bmax.y { amax.y } else { bmax.y };
        let loz = if amin.z >= bmin.z { amin.z } else { bmin.z };
        let hiz = if amax.z <= bmax.z { amax.z } else { bmax.z };
        let ox = spec_fx_sub(hix as int, lox as int);
        let oy = spec_fx_sub(hiy as int, loy as int);
        let oz = spec_fx_sub(hiz as int, loz as int);
        if ox >= -(CONTACT_MARGIN as int) && oy >= -(CONTACT_MARGIN as int) && oz >= -(
        CONTACT_MARGIN as int) {
            let point = Vec3 {
                x: spec_fx_mul(spec_fx_add(lox as int, hix as int), 500_000) as i64,
                y: spec_fx_mul(spec_fx_add(loy as int, hiy as int), 500_000) as i64,
                z: spec_fx_mul(spec_fx_add(loz as int, hiz as int), 500_000) as i64,
            };
            if ox <= oy && ox <= oz {
                let n = Vec3 { x: if pa.x >= pb.x { FX_ONE } else { NEG_FX_ONE }, y: 0, z: 0 };
                Some((n, point, ox as i64))
            } else if oy <= oz {
                let n = Vec3 { x: 0, y: if pa.y >= pb.y { FX_ONE } else { NEG_FX_ONE }, z: 0 };
                Some((n, point, oy as i64))
            } else {
                let n = Vec3 { x: 0, y: 0, z: if pa.z >= pb.z { FX_ONE } else { NEG_FX_ONE } };
                Some((n, point, oz as i64))
            }
        } else {
            None
        }
    }
}

pub fn contact_cuboid_cuboid(pa: Vec3, qa: Quat, ha: Vec3, pb: Vec3, qb: Quat, hb: Vec3) -> (res:
    Option<(Vec3, Vec3, i64)>)
    ensures
        res == spec_contact_cuboid_cuboid(pa, qa, ha, pb, qb, hb),
{
    proof {
        reveal(spec_contact_cuboid_cuboid);
    }
    let ida = qa.x == 0 && qa.y == 0 && qa.z == 0 && qa.w == FX_ONE;
    let idb = qb.x == 0 && qb.y == 0 && qb.z == 0 && qb.w == FX_ONE;
    if !(ida && idb) {
        None
    } else {
        let amin = v_sub(pa, ha);
        let amax = v_add(pa, ha);
        let bmin = v_sub(pb, hb);
        let bmax = v_add(pb, hb);
        let lox: i64 = if amin.x >= bmin.x { amin.x } else { bmin.x };
        let hix: i64 = if amax.x <= bmax.x { amax.x } else { bmax.x };
        let loy: i64 = if amin.y >= bmin.y { amin.y } else { bmin.y };
        let hiy: i64 = if amax.y <= bmax.y { amax.y } else { bmax.y };
        let loz: i64 = if amin.z >= bmin.z { amin.z } else { bmin.z };
        let hiz: i64 = if amax.z <= bmax.z { amax.z } else { bmax.z };
        let ox: i64 = fx_sub(hix, lox);
        let oy: i64 = fx_sub(hiy, loy);
        let oz: i64 = fx_sub(hiz, loz);
        if ox >= -CONTACT_MARGIN && oy >= -CONTACT_MARGIN && oz >= -CONTACT_MARGIN {
            let point = Vec3 {
                x: fx_mul(fx_add(lox, hix), 500_000),
                y: fx_mul(fx_add(loy, hiy), 500_000),
                z: fx_mul(fx_add(loz, hiz), 500_000),
            };
            if ox <= oy && ox <= oz {
                let n = Vec3 { x: if pa.x >= pb.x { FX_ONE } else { NEG_FX_ONE }, y: 0, z: 0 };
                Some((n, point, ox))
            } else if oy <= oz {
                let n = Vec3 { x: 0, y: if pa.y >= pb.y { FX_ONE } else { NEG_FX_ONE }, z: 0 };
                Some((n, point, oy))
            } else {
                let n = Vec3 { x: 0, y: 0, z: if pa.z >= pb.z { FX_ONE } else { NEG_FX_ONE } };
                Some((n, point, oz))
            }
        } else {
            None
        }
    }
}

/// Flip a raw contact so the normal points the other way.
pub open spec fn spec_flip(c: Option<(Vec3, Vec3, i64)>) -> Option<(Vec3, Vec3, i64)> {
    match c {
        Some(t) => Some((spec_v_neg(t.0), t.1, t.2)),
        None => None,
    }
}

fn flip(c: Option<(Vec3, Vec3, i64)>) -> (r: Option<(Vec3, Vec3, i64)>)
    ensures
        r == spec_flip(c),
{
    match c {
        Some(t) => Some((v_neg(t.0), t.1, t.2)),
        None => None,
    }
}

/// Closed shape-pair dispatch. The returned normal points from the second
/// shape toward the first. Two pair configurations are outside the
/// supported set and never produce a manifold: plane-plane (unbounded
/// geometry, no well-defined contact) and cuboid-cuboid where either
/// cuboid is rotated (only the axis-aligned cuboid pair has an exact
/// test here; a sphere against a rotated cuboid is fully supported).
pub open spec fn spec_contact(
    s1: Shape,
    p1: Vec3,
    q1: Quat,
    s2: Shape,
    p2: Vec3,
    q2: Quat,
) -> Option<(Vec3, Vec3, i64)> {
    match (s1, s2) {
        (Shape::Sphere { radius: r1 }, Shape::Sphere { radius: r2 }) => spec_contact_sphere_sphere(
            p1,
            r1,
            p2,
            r2,
        ),
        (Shape::Sphere { radius: r }, Shape::Cuboid { hx, hy, hz }) => spec_contact_sphere_cuboid(
            p1,
            r,
            p2,
            q2,
            hx,
            hy,
            hz,
        ),
        (Shape::Cuboid { hx, hy, hz }, Shape::Sphere { radius: r }) => spec_flip(
            spec_contact_sphere_cuboid(p2, r, p1, q1, hx, hy, hz),
        ),
        (Shape::Sphere { radius: r }, Shape::Plane {}) => spec_contact_sphere_plane(p1, r, p2, q2),
        (Shape::Plane {}, Shape::Sphere { radius: r }) => spec_flip(
            spec_contact_sphere_plane(p2, r, p1, q1),
        ),
        (Shape::Cuboid { hx, hy, hz }, Shape::Plane {}) => spec_contact_cuboid_plane(
            p1,
            q1,
            hx,
            hy,
            hz,
            p2,
            q2,
        ),
        (Shape::Plane {}, Shape::Cuboid { hx, hy, hz }) => spec_flip(
            spec_contact_cuboid_plane(p2, q2, hx, hy, hz, p1, q1),
        ),
        (Shape::Cuboid { hx: ax, hy: ay, hz: az }, Shape::Cuboid { hx: bx, hy: by, hz: bz }) =>
            spec_contact_cuboid_cuboid(
            p1,
            q1,
            Vec3 { x: ax, y: ay, z: az },
            p2,
            q2,
            Vec3 { x: bx, y: by, z: bz },
        ),
        (Shape::Plane {}, Shape::Plane {}) => None,
    }
}

pub fn contact(s1: &Shape, p1: Vec3, q1: Quat, s2: &Shape, p2: Vec3, q2: Quat) -> (res: Option<
    (Vec3, Vec3, i64),
>)
    ensures
        res == spec_contact(*s1, p1, q1, *s2, p2, q2),
{
    match (s1, s2) {
        (Shape::Sphere { radius: r1 }, Shape::Sphere { radius: r2 }) => contact_sphere_sphere(
            p1,
            *r1,
            p2,
            *r2,
        ),
        (Shape::Sphere { radius: r }, Shape::Cuboid { hx, hy, hz }) => contact_sphere_cuboid(
            p1,
            *r,
            p2,
            q2,
            *hx,
            *hy,
            *hz,
        ),
        (Shape::Cuboid { hx, hy, hz }, Shape::Sphere { radius: r }) => flip(
            contact_sphere_cuboid(p2, *r, p1, q1, *hx, *hy, *hz),
        ),
        (Shape::Sphere { radius: r }, Shape::Plane {}) => contact_sphere_plane(p1, *r, p2, q2),
        (Shape::Plane {}, Shape::Sphere { radius: r }) => flip(contact_sphere_plane(p2, *r, p1, q1)),
        (Shape::Cuboid { hx, hy, hz }, Shape::Plane {}) => contact_cuboid_plane(
            p1,
            q1,
            *hx,
            *hy,
            *hz,
            p2,
            q2,
        ),
        (Shape::Plane {}, Shape::Cuboid { hx, hy, hz }) => flip(
            contact_cuboid_plane(p2, q2, *hx, *hy, *hz, p1, q1),
        ),
        (Shape::Cuboid { hx: ax, hy: ay, hz: az }, Shape::Cuboid { hx: bx, hy: by, hz: bz }) =>
            contact_cuboid_cuboid(
            p1,
            q1,
            Vec3 { x: *ax, y: *ay, z: *az },
            p2,
            q2,
            Vec3 { x: *bx, y: *by, z: *bz },
        ),
        (Shape::Plane {}, Shape::Plane {}) => None,
    }
}

/// Combined surface coefficient of a pair: the average of the two
/// colliders' own coefficients.
pub open spec fn spec_combine(a: i64, b: i64) -> int {
    spec_fx_mul(spec_fx_add(a as int, b as int), 500_000)
}

/// The manifold one candidate pair produces, if its exact test finds the
/// shapes within the contact margin.
#[verifier::opaque]
pub open spec fn spec_manifold_for_pair(
    bodies: Seq<Slot<Body>>,
    cols: Seq<Slot<Collider>>,
    i: int,
    j: int,
) -> Option<Manifold> {
    if !(0 <= i < cols.len() && 0 <= j < cols.len() && cols[i].val is Some && cols[j].val is Some) {
        None
    } else {
        let c1 = cols[i].val->0;
        let c2 = cols[j].val->0;
        match spec_contact(
            c1.shape,
            spec_collider_pos(bodies, c1),
            spec_collider_rot(bodies, c1),
            c2.shape,
            spec_collider_pos(bodies, c2),
            spec_collider_rot(bodies, c2),
        ) {
            Some(t) => {
                let rel = spec_fx_sub(
                    spec_v_dot(spec_collider_vel(bodies, c1), t.0),
                    spec_v_dot(spec_collider_vel(bodies, c2), t.0),
                );
                let rest = spec_combine(c1.restitution, c2.restitution);
                let target = if rel < -(RESTITUTION_THRESHOLD as int) {
                    spec_fx_neg(spec_fx_mul(rest, rel))
                } else {
                    0
                };
                Some(
                    (Manifold {
                        body_a: spec_collider_body_index(bodies, c1),
                        body_b: spec_collider_body_index(bodies, c2),
                        normal: t.0,
                        point: t.1,
                        pen: t.2,
                        friction: spec_combine(c1.friction, c2.friction) as i64,
                        restitution: rest as i64,
                        target_vel: target as i64,
                    }),
                )
            },
            None => None,
        }
    }
}

fn manifold_for_pair(bodies: &Vec<Slot<Body>>, cols: &Vec<Slot<Collider>>, i: usize, j: usize) -> (r:
    Option<Manifold>)
    ensures
        r == spec_manifold_for_pair(bodies@, cols@, i as int, j as int),
{
    proof {
        reveal(spec_manifold_for_pair);
    }
    if !(i < cols.len() && j < cols.len()) {
        return None;
    }
    let si: Slot<Collider> = cols[i];
    let sj: Slot<Collider> = cols[j];
    match (si.val, sj.val) {
        (Some(c1), Some(c2)) => {
            match contact(
                &c1.shape,
                collider_pos(bodies, &c1),
                collider_rot(bodies, &c1),
                &c2.shape,
                collider_pos(bodies, &c2),
                collider_rot(bodies, &c2),
            ) {
                Some(t) => {
                    let rel: i64 = fx_sub(
                        v_dot(collider_vel(bodies, &c1), t.0),
                        v_dot(collider_vel(bodies, &c2), t.0),
                    );
                    let rest: i64 = fx_mul(fx_add(c1.restitution, c2.restitution), 500_000);
                    let target: i64 = if rel < -RESTITUTION_THRESHOLD {
                        fx_neg(fx_mul(rest, rel))
                    } else {
                        0
                    };
                    Some(
                        Manifold {
                            body_a: collider_body_index(bodies, &c1),
                            body_b: collider_body_index(bodies, &c2),
                            normal: t.0,
                            point: t.1,
                            pen: t.2,
                            friction: fx_mul(fx_add(c1.friction, c2.friction), 500_000),
                            restitution: rest,
                            target_vel: target,
                        },
                    )
                },
                None => None,
            }
        },
        _ => None,
    }
}

/// Manifolds of the first `n` candidate pairs, in pair order.
pub open spec fn spec_manifolds_upto(
    bodies: Seq<Slot<Body>>,
    cols: Seq<Slot<Collider>>,
    pairs: Seq<(usize, usize)>,
    n: int,
) -> Seq<Manifold>
    decreases n
    when 0 <= n <= pairs.len()
{
    if n <= 0 {
        Seq::empty()
    } else {
        let prev = spec_manifolds_upto(bodies, cols, pairs, n - 1);
        match spec_manifold_for_pair(
            bodies,
            cols,
            pairs[n - 1].0 as int,
            pairs[n - 1].1 as int,
        ) {
            Some(m) => prev.push(m),
            None => prev,
        }
    }
}

/// Run the exact tests over the whole candidate list.
pub fn narrow_phase(
    bodies: &Vec<Slot<Body>>,
    cols: &Vec<Slot<Collider>>,
    pairs: &Vec<(usize, usize)>,
) -> (r: Vec<Manifold>)
    ensures
        r@ == spec_manifolds_upto(bodies@, cols@, pairs@, pairs@.len() as int),
{
    let n: usize = pairs.len();
    let mut acc: Vec<Manifold> = Vec::new();
    let mut k: usize = 0;
    while k < n
        invariant
            k <= n,
            n == pairs@.len(),
            acc@ == spec_manifolds_upto(bodies@, cols@, pairs@, k as int),
        decreases n - k,
    {
        let (i, j) = pairs[k];
        match manifold_for_pair(bodies, cols, i, j) {
            Some(m) => acc.push(m),
            None => {},
        }
        k = k + 1;
    }
    acc
}


/// LAW (manifold admission): for valid shapes, a manifold is emitted only
/// when the shapes are touching or overlapping within the configured
/// contact margin: its penetration depth is at least -CONTACT_MARGIN.
#[verifier::rlimit(100)]
pub proof fn lemma_contact_within_margin(
    s1: Shape,
    p1: Vec3,
    q1: Quat,
    s2: Shape,
    p2: Vec3,
    q2: Quat,
)
    requires
        crate::shape::spec_shape_valid(s1),
        crate::shape::spec_shape_valid(s2),
    ensures
        match spec_contact(s1, p1, q1, s2, p2, q2) {
            Some(t) => t.2 >= -(CONTACT_MARGIN as int),
            None => true,
        },
{
    reveal(spec_contact_sphere_sphere);
    reveal(spec_contact_sphere_plane);
    reveal(spec_contact_cuboid_plane);
    reveal(spec_contact_cuboid_cuboid);
    match (s1, s2) {
        (Shape::Sphere { radius: r }, Shape::Cuboid { hx, hy, hz }) => {
            lemma_sphere_cuboid_within_margin(p1, r, p2, q2, hx, hy, hz);
        },
        (Shape::Cuboid { hx, hy, hz }, Shape::Sphere { radius: r }) => {
            lemma_sphere_cuboid_within_margin(p2, r, p1, q1, hx, hy, hz);
        },
        _ => {},
    }
}

proof fn lemma_sphere_cuboid_within_margin(
    ps: Vec3,
    r: i64,
    pb: Vec3,
    qb: Quat,
    hx: i64,
    hy: i64,
    hz: i64,
)
    requires
        0 < r <= crate::fx::FX_MAX,
        0 < hx <= crate::fx::FX_MAX,
        0 < hy <= crate::fx::FX_MAX,
        0 < hz <= crate::fx::FX_MAX,
    ensures
        match spec_contact_sphere_cuboid(ps, r, pb, qb, hx, hy, hz) {
            Some(t) => t.2 >= -(CONTACT_MARGIN as int),
            None => true,
        },
{
    reveal(spec_contact_sphere_cuboid);
    let local = spec_q_rotate(spec_q_conj(qb), spec_v_sub(ps, pb));
    let cl = Vec3 {
        x: spec_clamp1(local.x, hx),
        y: spec_clamp1(local.y, hy),
        z: spec_clamp1(local.z, hz),
    };
    if cl == local {
        assert(spec_fx_abs(local.x as int) <= hx as int);
        assert(spec_fx_abs(local.y as int) <= hy as int);
        assert(spec_fx_abs(local.z as int) <= hz as int);
        assert(spec_fx_sub(hx as int, spec_fx_abs(local.x as int)) >= 0);
        assert(spec_fx_sub(hy as int, spec_fx_abs(local.y as int)) >= 0);
        assert(spec_fx_sub(hz as int, spec_fx_abs(local.z as int)) >= 0);
    }
}

/// LAW (narrow phase admission): every manifold the narrow phase emits,
/// over colliders whose shapes are valid, carries a penetration depth of
/// at least -CONTACT_MARGIN.
pub proof fn lemma_manifolds_within_margin(
    bodies: Seq<Slot<Body>>,
    cols: Seq<Slot<Collider>>,
    pairs: Seq<(usize, usize)>,
    n: int,
)
    requires
        0 <= n <= pairs.len(),
        forall|k: int|
            0 <= k < cols.len() && cols[k].val is Some ==> crate::shape::spec_shape_valid(
                #[trigger] cols[k].val->0.shape,
            ),
    ensures
        forall|q: int|
            0 <= q < spec_manifolds_upto(bodies, cols, pairs, n).len()
                ==> #[trigger] spec_manifolds_upto(bodies, cols, pairs, n)[q].pen >= -(
            CONTACT_MARGIN as int),
    decreases n,
{
    if n > 0 {
        lemma_manifolds_within_margin(bodies, cols, pairs, n - 1);
        let i = pairs[n - 1].0 as int;
        let j = pairs[n - 1].1 as int;
        reveal(spec_manifold_for_pair);
        if 0 <= i < cols.len() && 0 <= j < cols.len() && cols[i].val is Some && cols[j].val
            is Some {
            let c1 = cols[i].val->0;
            let c2 = cols[j].val->0;
            lemma_contact_within_margin(
                c1.shape,
                spec_collider_pos(bodies, c1),
                spec_collider_rot(bodies, c1),
                c2.shape,
                spec_collider_pos(bodies, c2),
                spec_collider_rot(bodies, c2),
            );
        }
    }
}


} // verus!
