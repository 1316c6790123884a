//! Collision shapes: sphere, cuboid (given by half-extents) and half-space
//! plane, with their bounding boxes and mass properties.

use vstd::prelude::*;
use crate::fx::{
    FX_MAX, FX_MIN, FX_ONE, fx_add, fx_div, fx_mul, fx_abs,
    spec_fx_abs, spec_fx_add, spec_fx_div, spec_fx_mul,
};
use crate::vec3::{
    Quat, Vec3, q_rotate, spec_q_rotate, spec_v_add, spec_v_sub, v_add, v_sub,
};

verus! {

/// 4/3 * pi in fixed point.
pub const FOUR_THIRDS_PI: i64 = 4_188_790;

/// A geometric primitive. A `Plane` is the half-space below the plane
/// through the owning body's position with outward normal equal to the
/// body orientation applied to +Y; it is infinite and has no volume.
#[derive(Clone, Copy, PartialEq, Eq, Structural, Debug)]
pub enum Shape {
    Sphere { radius: i64 },
    Cuboid { hx: i64, hy: i64, hz: i64 },
    Plane {},
}

/// An axis-aligned bounding box.
#[derive(Clone, Copy, PartialEq, Eq, Structural, Debug)]
pub struct Aabb {
    pub min: Vec3,
    pub max: Vec3,
}

/// A shape is valid when its dimensions are positive and representable.
pub open spec fn spec_shape_valid(s: Shape) -> bool {
    match s {
        Shape::Sphere { radius } => 0 < radius <= FX_MAX,
        Shape::Cuboid { hx, hy, hz } => 0 < hx <= FX_MAX && 0 < hy <= FX_MAX && 0 < hz <= FX_MAX,
        Shape::Plane {} => true,
    }
}

pub fn shape_valid(s: &Shape) -> (r: bool)
    ensures
        r == spec_shape_valid(*s),
{
    match s {
        Shape::Sphere { radius } => 0 < *radius && *radius <= FX_MAX,
        Shape::Cuboid { hx, hy, hz } => 0 < *hx && *hx <= FX_MAX && 0 < *hy && *hy <= FX_MAX && 0
            < *hz && *hz <= FX_MAX,
        Shape::Plane {} => true,
    }
}

/// Volume: (4/3) pi r^3 for a sphere, 8 hx hy hz for a cuboid, 0 for a
/// plane (planes are boundary geometry and contribute no mass).
pub open spec fn spec_shape_volume(s: Shape) -> int {
    match s {
        Shape::Sphere { radius } => spec_fx_mul(
            spec_fx_mul(spec_fx_mul(radius as int, radius as int), radius as int),
            FOUR_THIRDS_PI as int,
        ),
        Shape::Cuboid { hx, hy, hz } => spec_fx_mul(
            spec_fx_mul(spec_fx_mul(hx as int, hy as int), hz as int),
            8 * FX_ONE as int,
        ),
        Shape::Plane {} => 0,
    }
}

pub fn shape_volume(s: &Shape) -> (r: i64)
    ensures
        r as int == spec_shape_volume(*s),
{
    match s {
        Shape::Sphere { radius } => fx_mul(fx_mul(fx_mul(*radius, *radius), *radius), FOUR_THIRDS_PI),
        Shape::Cuboid { hx, hy, hz } => fx_mul(fx_mul(fx_mul(*hx, *hy), *hz), 8 * FX_ONE),
        Shape::Plane {} => 0,
    }
}

/// The smallest extent of the shape, used by the continuous-collision pass.
pub open spec fn spec_shape_min_dim(s: Shape) -> int {
    match s {
        Shape::Sphere { radius } => radius as int,
        Shape::Cuboid { hx, hy, hz } => {
            let m = if hx <= hy { hx } else { hy };
            if m <= hz { m as int } else { hz as int }
        },
        Shape::Plane {} => FX_MAX as int,
    }
}

pub fn shape_min_dim(s: &Shape) -> (r: i64)
    ensures
        r as int == spec_shape_min_dim(*s),
{
    match s {
        Shape::Sphere { radius } => *radius,
        Shape::Cuboid { hx, hy, hz } => {
            let m: i64 = if *hx <= *hy { *hx } else { *hy };
            if m <= *hz { m } else { *hz }
        },
        Shape::Plane {} => FX_MAX,
    }
}

pub open spec fn spec_v_abs(a: Vec3) -> Vec3 {
    Vec3 {
        x: spec_fx_abs(a.x as int) as i64,
        y: spec_fx_abs(a.y as int) as i64,
        z: spec_fx_abs(a.z as int) as i64,
    }
}

pub fn v_abs(a: Vec3) -> (r: Vec3)
    ensures
        r == spec_v_abs(a),
{
    Vec3 { x: fx_abs(a.x), y: fx_abs(a.y), z: fx_abs(a.z) }
}

/// World-space axis-aligned bounding box of a shape placed at `pos` with
/// orientation `rot`. A plane is unbounded, so its box spans the whole
/// representable range.
pub open spec fn spec_shape_aabb(s: Shape, pos: Vec3, rot: Quat) -> Aabb {
    match s {
        Shape::Sphere { radius } => {
            let r = Vec3 { x: radius, y: radius, z: radius };
            Aabb { min: spec_v_sub(pos, r), max: spec_v_add(pos, r) }
        },
        Shape::Cuboid { hx, hy, hz } => {
            let ex = spec_v_abs(spec_q_rotate(rot, Vec3 { x: hx, y: 0, z: 0 }));
            let ey = spec_v_abs(spec_q_rotate(rot, Vec3 { x: 0, y: hy, z: 0 }));
            let ez = spec_v_abs(spec_q_rotate(rot, Vec3 { x: 0, y: 0, z: hz }));
            let ext = spec_v_add(spec_v_add(ex, ey), ez);
            Aabb { min: spec_v_sub(pos, ext), max: spec_v_add(pos, ext) }
        },
        Shape::Plane {} => Aabb {
            min: Vec3 { x: FX_MIN, y: FX_MIN, z: FX_MIN },
            max: Vec3 { x: FX_MAX, y: FX_MAX, z: FX_MAX },
        },
    }
}

pub fn shape_aabb(s: &Shape, pos: Vec3, rot: Quat) -> (r: Aabb)
    ensures
        r == spec_shape_aabb(*s, pos, rot),
{
    match s {
        Shape::Sphere { radius } => {
            let r = Vec3 { x: *radius, y: *radius, z: *radius };
            Aabb { min: v_sub(pos, r), max: v_add(pos, r) }
        },
        Shape::Cuboid { hx, hy, hz } => {
            let ex = v_abs(q_rotate(rot, Vec3 { x: *hx, y: 0, z: 0 }));
            let ey = v_abs(q_rotate(rot, Vec3 { x: 0, y: *hy, z: 0 }));
            let ez = v_abs(q_rotate(rot, Vec3 { x: 0, y: 0, z: *hz }));
            let ext = v_add(v_add(ex, ey), ez);
            Aabb { min: v_sub(pos, ext), max: v_add(pos, ext) }
        },
        Shape::Plane {} => Aabb {
            min: Vec3 { x: FX_MIN, y: FX_MIN, z: FX_MIN },
            max: Vec3 { x: FX_MAX, y: FX_MAX, z: FX_MAX },
        },
    }
}

pub open spec fn spec_aabb_overlap(a: Aabb, b: Aabb) -> bool {
    a.min.x <= b.max.x && b.min.x <= a.max.x && a.min.y <= b.max.y && b.min.y <= a.max.y
        && a.min.z <= b.max.z && b.min.z <= a.max.z
}

pub fn aabb_overlap(a: &Aabb, b: &Aabb) -> (r: bool)
    ensures
        r == spec_aabb_overlap(*a, *b),
{
    a.min.x <= b.max.x && b.min.x <= a.max.x && a.min.y <= b.max.y && b.min.y <= a.max.y
        && a.min.z <= b.max.z && b.min.z <= a.max.z
}

/// Mass of a shape of the given density.
pub open spec fn spec_shape_mass(s: Shape, density: int) -> int {
    spec_fx_mul(spec_shape_volume(s), density)
}

pub fn shape_mass(s: &Shape, density: i64) -> (r: i64)
    ensures
        r as int == spec_shape_mass(*s, density as int),
{
    fx_mul(shape_volume(s), density)
}

/// Diagonal of the inertia tensor of a shape of mass `m` centered at the
/// body origin: (2/5) m r^2 for a sphere, m (h_j^2 + h_k^2) / 3 for a
/// cuboid of half-extents h.
pub open spec fn spec_shape_inertia_diag(s: Shape, m: int) -> Vec3 {
    match s {
        Shape::Sphere { radius } => {
            let i = spec_fx_mul(spec_fx_mul(m, spec_fx_mul(radius as int, radius as int)), 400_000);
            Vec3 { x: i as i64, y: i as i64, z: i as i64 }
        },
        Shape::Cuboid { hx, hy, hz } => {
            let sx = spec_fx_mul(hx as int, hx as int);
            let sy = spec_fx_mul(hy as int, hy as int);
            let sz = spec_fx_mul(hz as int, hz as int);
            Vec3 {
                x: spec_fx_div(spec_fx_mul(m, spec_fx_add(sy, sz)), 3 * FX_ONE as int) as i64,
                y: spec_fx_div(spec_fx_mul(m, spec_fx_add(sx, sz)), 3 * FX_ONE as int) as i64,
                z: spec_fx_div(spec_fx_mul(m, spec_fx_add(sx, sy)), 3 * FX_ONE as int) as i64,
            }
        },
        Shape::Plane {} => Vec3 { x: 0, y: 0, z: 0 },
    }
}

pub fn shape_inertia_diag(s: &Shape, m: i64) -> (r: Vec3)
    ensures
        r == spec_shape_inertia_diag(*s, m as int),
{
    match s {
        Shape::Sphere { radius } => {
            let i: i64 = fx_mul(fx_mul(m, fx_mul(*radius, *radius)), 400_000);
            Vec3 { x: i, y: i, z: i }
        },
        Shape::Cuboid { hx, hy, hz } => {
            let sx: i64 = fx_mul(*hx, *hx);
            let sy: i64 = fx_mul(*hy, *hy);
            let sz: i64 = fx_mul(*hz, *hz);
            Vec3 {
                x: fx_div(fx_mul(m, fx_add(sy, sz)), 3 * FX_ONE),
                y: fx_div(fx_mul(m, fx_add(sx, sz)), 3 * FX_ONE),
                z: fx_div(fx_mul(m, fx_add(sx, sy)), 3 * FX_ONE),
            }
        },
        Shape::Plane {} => Vec3 { x: 0, y: 0, z: 0 },
    }
}

/// Parallel-axis shift of an inertia diagonal for a collider whose center
/// sits at local offset `o` from the body origin.
pub open spec fn spec_inertia_offset(i: Vec3, m: int, o: Vec3) -> Vec3 {
    let sx = spec_fx_mul(o.x as int, o.x as int);
    let sy = spec_fx_mul(o.y as int, o.y as int);
    let sz = spec_fx_mul(o.z as int, o.z as int);
    Vec3 {
        x: spec_fx_add(i.x as int, spec_fx_mul(m, spec_fx_add(sy, sz))) as i64,
        y: spec_fx_add(i.y as int, spec_fx_mul(m, spec_fx_add(sx, sz))) as i64,
        z: spec_fx_add(i.z as int, spec_fx_mul(m, spec_fx_add(sx, sy))) as i64,
    }
}

pub fn inertia_offset(i: Vec3, m: i64, o: Vec3) -> (r: Vec3)
    ensures
        r == spec_inertia_offset(i, m as int, o),
{
    let sx: i64 = fx_mul(o.x, o.x);
    let sy: i64 = fx_mul(o.y, o.y);
    let sz: i64 = fx_mul(o.z, o.z);
    Vec3 {
        x: fx_add(i.x, fx_mul(m, fx_add(sy, sz))),
        y: fx_add(i.y, fx_mul(m, fx_add(sx, sz))),
        z: fx_add(i.z, fx_mul(m, fx_add(sx, sy))),
    }
}

} // verus!
