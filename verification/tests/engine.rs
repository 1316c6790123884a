use bouncer::broad::broad_phase;
use bouncer::fx::{FX_MAX, FX_ONE, fx_add, fx_div, fx_mul, fx_neg, fx_sub, isqrt_u128};
use bouncer::narrow::{contact_sphere_plane, contact_sphere_sphere};
use bouncer::shape::{Aabb, Shape, aabb_overlap, shape_mass, shape_volume};
use bouncer::store::{BodyKind, BodySpec, ColliderSpec, SimError, World};
use bouncer::vec3::{Quat, Vec3, q_rotate, v_len};

fn v(x: i64, y: i64, z: i64) -> Vec3 {
    Vec3 { x, y, z }
}

fn identity() -> Quat {
    Quat { x: 0, y: 0, z: 0, w: FX_ONE }
}

fn still_body(kind: BodyKind, pos: Vec3) -> BodySpec {
    BodySpec { kind, pos, rot: identity(), lin_vel: v(0, 0, 0), ang_vel: v(0, 0, 0) }
}

fn unit_sphere_collider() -> ColliderSpec {
    ColliderSpec {
        shape: Shape::Sphere { radius: 500_000 },
        local_pos: v(0, 0, 0),
        friction: 0,
        restitution: 0,
        density: FX_ONE,
    }
}

#[test]
fn fixed_point_arithmetic_is_exact_and_saturating() {
    assert_eq!(fx_add(2_000_000, 3_000_000), 5_000_000);
    assert_eq!(fx_add(FX_MAX, FX_MAX), FX_MAX);
    assert_eq!(fx_sub(-FX_MAX, FX_MAX), -FX_MAX);
    assert_eq!(fx_mul(2_000_000, 3_000_000), 6_000_000);
    assert_eq!(fx_mul(-2_000_000, 3_000_000), -6_000_000);
    // Truncation is toward zero on both signs.
    assert_eq!(fx_mul(-1, 1), 0);
    assert_eq!(fx_mul(1, 1), 0);
    assert_eq!(fx_div(FX_ONE, 3_000_000), 333_333);
    assert_eq!(fx_div(-FX_ONE, 3_000_000), -333_333);
    assert_eq!(fx_neg(7), -7);
}

#[test]
fn integer_square_root_is_exact() {
    assert_eq!(isqrt_u128(0), 0);
    assert_eq!(isqrt_u128(10), 3);
    assert_eq!(isqrt_u128(144), 12);
    assert_eq!(isqrt_u128(1_000_000_000_000), 1_000_000);
    assert_eq!(isqrt_u128(u64::MAX as u128), 4_294_967_295);
}

#[test]
fn vector_length_of_pythagorean_triple() {
    assert_eq!(v_len(v(3_000_000, 4_000_000, 0)), 5_000_000);
    assert_eq!(v_len(v(0, 0, 0)), 0);
}

#[test]
fn quarter_turn_rotation_maps_axes() {
    // 90 degrees about +Y takes +X to -Z (within fixed-point rounding of
    // the quarter-turn quaternion).
    let q = Quat { x: 0, y: 707_107, z: 0, w: 707_107 };
    let r = q_rotate(q, v(FX_ONE, 0, 0));
    assert!(r.x.abs() < 3_000, "x {}", r.x);
    assert!(r.y.abs() < 3_000, "y {}", r.y);
    assert!((r.z + FX_ONE).abs() < 3_000, "z {}", r.z);
}

#[test]
fn sphere_volumes_and_masses() {
    // (4/3) pi 0.5^3 = 0.523598...; a unit-density unit cube weighs 1.
    assert_eq!(shape_volume(&Shape::Sphere { radius: 500_000 }), 523_598);
    assert_eq!(
        shape_volume(&Shape::Cuboid { hx: 500_000, hy: 500_000, hz: 500_000 }),
        1_000_000
    );
    assert_eq!(shape_mass(&Shape::Sphere { radius: 500_000 }, 2_000_000), 1_047_196);
    assert_eq!(shape_volume(&Shape::Plane {}), 0);
}

#[test]
fn aabb_overlap_is_symmetric_and_tight() {
    let a = Aabb { min: v(0, 0, 0), max: v(1_000_000, 1_000_000, 1_000_000) };
    let b = Aabb { min: v(900_000, 0, 0), max: v(2_000_000, 500_000, 500_000) };
    let c = Aabb { min: v(1_000_001, 0, 0), max: v(2_000_000, 500_000, 500_000) };
    assert!(aabb_overlap(&a, &b));
    assert!(aabb_overlap(&b, &a));
    assert!(!aabb_overlap(&a, &c));
}

#[test]
fn touching_spheres_make_a_contact() {
    let r = contact_sphere_sphere(v(0, 1_000_000, 0), 500_000, v(0, 0, 0), 500_000).unwrap();
    assert_eq!(r.0, v(0, FX_ONE, 0));
    assert_eq!(r.1, v(0, 500_000, 0));
    assert_eq!(r.2, 0);
    // Far apart: no contact.
    assert!(contact_sphere_sphere(v(0, 3_000_000, 0), 500_000, v(0, 0, 0), 500_000).is_none());
}

#[test]
fn sphere_on_plane_contact_depth() {
    // A sphere of radius 0.5 whose center is 0.4 above the plane is 0.1
    // deep; the contact point is the center's projection onto the plane.
    let r = contact_sphere_plane(v(0, 400_000, 0), 500_000, v(0, 0, 0), identity()).unwrap();
    assert_eq!(r.0, v(0, FX_ONE, 0));
    assert_eq!(r.1, v(0, 0, 0));
    assert_eq!(r.2, 100_000);
}

#[test]
fn broad_phase_prunes_fixed_pairs_and_self() {
    let mut world = World::new();
    let a = world.insert_body(still_body(BodyKind::Fixed, v(0, 0, 0))).unwrap();
    let b = world.insert_body(still_body(BodyKind::Fixed, v(100_000, 0, 0))).unwrap();
    world.insert_collider(unit_sphere_collider(), Some(a)).unwrap();
    world.insert_collider(unit_sphere_collider(), Some(b)).unwrap();
    // Two overlapping fixed colliders can never produce motion: no pair.
    assert!(broad_phase(&world.bodies, &world.colliders, 16_666).is_empty());
    // One of them dynamic: exactly one pair, in index order.
    let d = world.insert_body(still_body(BodyKind::Dynamic, v(0, 200_000, 0))).unwrap();
    world.insert_collider(unit_sphere_collider(), Some(d)).unwrap();
    let pairs = broad_phase(&world.bodies, &world.colliders, 16_666);
    assert_eq!(pairs, vec![(0, 2), (1, 2)]);
}

#[test]
fn removed_handle_is_rejected_even_after_slot_reuse() {
    let mut world = World::new();
    let first = world.insert_body(still_body(BodyKind::Dynamic, v(0, 0, 0))).unwrap();
    assert!(world.get_body(first).is_some());
    world.remove_body(first).unwrap();
    assert!(world.get_body(first).is_none());
    assert_eq!(world.remove_body(first), Err(SimError::InvalidHandle));
    // The next insertion reuses the same slot with a new generation.
    let second = world.insert_body(still_body(BodyKind::Dynamic, v(1_000_000, 0, 0))).unwrap();
    assert_eq!(second.index, first.index);
    assert_ne!(second.generation, first.generation);
    assert!(world.get_body(first).is_none());
    assert_eq!(world.get_body(second).unwrap().pos, v(1_000_000, 0, 0));
}

#[test]
fn removing_a_body_detaches_colliders_and_drops_joints() {
    let mut world = World::new();
    let a = world.insert_body(still_body(BodyKind::Dynamic, v(2_000_000, 0, 0))).unwrap();
    let b = world.insert_body(still_body(BodyKind::Dynamic, v(0, 0, 0))).unwrap();
    let c = world.insert_collider(unit_sphere_collider(), Some(a)).unwrap();
    let j = world.insert_joint(a, b).unwrap();
    world.remove_body(a).unwrap();
    // The collider lives on, frozen at its world placement, parentless.
    let orphan = world.get_collider(c).unwrap();
    assert!(orphan.parent.is_none());
    assert_eq!(orphan.local_pos, v(2_000_000, 0, 0));
    // The joint referencing the removed body is gone.
    assert_eq!(world.remove_joint(j), Err(SimError::InvalidHandle));
}

#[test]
fn joints_require_live_bodies() {
    let mut world = World::new();
    let a = world.insert_body(still_body(BodyKind::Dynamic, v(0, 0, 0))).unwrap();
    let b = world.insert_body(still_body(BodyKind::Dynamic, v(1_000_000, 0, 0))).unwrap();
    world.remove_body(b).unwrap();
    assert_eq!(world.insert_joint(a, b), Err(SimError::InvalidHandle));
    let c = world.insert_body(still_body(BodyKind::Dynamic, v(1_000_000, 0, 0))).unwrap();
    assert!(world.insert_joint(a, c).is_ok());
}

#[test]
fn impulses_need_a_live_body() {
    let mut world = World::new();
    let a = world.insert_body(still_body(BodyKind::Dynamic, v(0, 0, 0))).unwrap();
    world.insert_collider(unit_sphere_collider(), Some(a)).unwrap();
    world.remove_body(a).unwrap();
    assert_eq!(world.apply_impulse(a, v(FX_ONE, 0, 0)), Err(SimError::InvalidHandle));
}
