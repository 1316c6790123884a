use bouncer::scene::Scene;
use bouncer::shape::Shape;
use bouncer::sim::BouncerGame;
use bouncer::store::{BodyKind, BodySpec, ColliderSpec, SimError, World};
use bouncer::vec3::{Quat, Vec3};

fn v(x: i64, y: i64, z: i64) -> Vec3 {
    Vec3 { x, y, z }
}

fn identity() -> Quat {
    Quat { x: 0, y: 0, z: 0, w: 1_000_000 }
}

fn body_spec(kind: BodyKind, pos: Vec3, lin_vel: Vec3) -> BodySpec {
    BodySpec { kind, pos, rot: identity(), lin_vel, ang_vel: v(0, 0, 0) }
}

fn ground_collider(friction: i64, restitution: i64) -> ColliderSpec {
    ColliderSpec {
        shape: Shape::Cuboid { hx: 100_000_000, hy: 100_000, hz: 100_000_000 },
        local_pos: v(0, 0, 0),
        friction,
        restitution,
        density: 1_000_000,
    }
}

fn ball_collider(friction: i64, restitution: i64) -> ColliderSpec {
    ColliderSpec {
        shape: Shape::Sphere { radius: 500_000 },
        local_pos: v(0, 0, 0),
        friction,
        restitution,
        density: 1_000_000,
    }
}

/// A scene with the standard ground slab (top at y = 0) and one ball.
fn ground_and_ball(
    dt: i64,
    restitution: i64,
    ball_pos: Vec3,
    ball_vel: Vec3,
) -> (Scene, bouncer::store::BodyHandle) {
    let mut scene = Scene::new(v(0, -9_810_000, 0), dt, 8).unwrap();
    let ground = scene
        .world
        .insert_body(body_spec(BodyKind::Fixed, v(0, -100_000, 0), v(0, 0, 0)))
        .unwrap();
    scene
        .world
        .insert_collider(ground_collider(0, restitution), Some(ground))
        .unwrap();
    let ball = scene
        .world
        .insert_body(body_spec(BodyKind::Dynamic, ball_pos, ball_vel))
        .unwrap();
    scene
        .world
        .insert_collider(ball_collider(0, restitution), Some(ball))
        .unwrap();
    (scene, ball)
}

#[test]
fn default_simulation_reports_start_position() {
    let game = BouncerGame::new();
    let p = game.ball_position().unwrap();
    assert_eq!(p, v(0, 10_000_000, 1_000_000));
}

#[test]
fn first_step_free_fall_is_exact() {
    // One step of gravity at 1/60: v = -0.163493, y drops by 0.002724.
    let mut game = BouncerGame::new();
    let p = game.step().unwrap();
    assert_eq!(p.y, 9_997_276);
    assert_eq!(p.x, 0);
    assert_eq!(p.z, 1_000_000);
}

#[test]
fn drop_bounce_timing_and_apex() {
    // The ball falls 9.5 until the sphere touches the ground, which
    // free-fall kinematics puts near step 83 at dt = 1/60, then rebounds
    // to roughly 0.7^2 of the drop height.
    let mut game = BouncerGame::new();
    let mut ys: Vec<i64> = Vec::new();
    for _ in 0..240 {
        ys.push(game.step().unwrap().y);
    }
    for i in 0..80 {
        assert!(ys[i] > 600_000, "fell below the radius too early at step {}", i);
    }
    let mut min_step = 0;
    for i in 0..100 {
        if ys[i] < ys[min_step] {
            min_step = i;
        }
    }
    assert!(min_step >= 80 && min_step <= 86, "impact at step {}", min_step);
    assert!(ys[min_step] > 480_000 && ys[min_step] < 520_000);
    let apex = *ys[min_step..].iter().max().unwrap();
    let rise = apex - 500_000;
    // 0.49 * 9.5 = 4.655; allow the discretization of dt = 1/60.
    assert!(rise > 4_100_000 && rise < 5_300_000, "rebound rise {}", rise);
}

#[test]
fn elastic_bounce_returns_to_drop_height() {
    // Restitution 1 on both surfaces: after one full bounce the apex is
    // within a small numerical tolerance of the 5.0 starting height.
    let (mut scene, ball) = ground_and_ball(4_166, 1_000_000, v(0, 5_000_000, 0), v(0, 0, 0));
    let mut apex: i64 = 0;
    let mut bounced = false;
    let mut prev_y: i64 = 5_000_000;
    for _ in 0..1400 {
        scene.step();
        let y = scene.world.get_body(ball).unwrap().pos.y;
        if y > prev_y {
            bounced = true;
        }
        if bounced && y > apex {
            apex = y;
        }
        prev_y = y;
    }
    assert!(bounced);
    assert!(
        (apex - 5_000_000).abs() < 200_000,
        "apex {} not within tolerance of the starting height",
        apex
    );
}

#[test]
fn resting_ball_settles_without_jitter() {
    // Restitution 0: a ball resting on the ground converges to zero
    // vertical velocity and stays at non-negative penetration.
    let (mut scene, ball) = ground_and_ball(16_666, 0, v(0, 500_000, 0), v(0, 0, 0));
    for _ in 0..100 {
        scene.step();
    }
    for _ in 0..100 {
        scene.step();
        let b = scene.world.get_body(ball).unwrap();
        assert!(b.pos.y >= 490_000 && b.pos.y <= 510_000, "sank or jittered: y {}", b.pos.y);
        assert!(b.lin_vel.y.abs() <= 2_000, "vertical velocity {}", b.lin_vel.y);
    }
}

#[test]
fn zero_timestep_step_changes_no_transform() {
    // A degenerate configuration with zero elapsed simulated time: even
    // with the ball left interpenetrating the ground, a step moves
    // nothing.
    let (mut scene, ball) = ground_and_ball(16_666, 700_000, v(0, 400_000, 0), v(0, -3_000_000, 0));
    scene.set_timestep(0).unwrap();
    let before_ball = scene.world.get_body(ball).unwrap();
    scene.step();
    let after_ball = scene.world.get_body(ball).unwrap();
    assert_eq!(before_ball.pos, after_ball.pos);
    assert_eq!(before_ball.rot, after_ball.rot);
}

#[test]
fn fixed_ground_never_moves() {
    // The ground is body slot 0 of the default scene; fifty steps leave
    // its transform untouched while the ball falls.
    let mut game = BouncerGame::new();
    let ground = bouncer::store::BodyHandle { index: 0, generation: 0 };
    let before = game.scene.world.get_body(ground).unwrap();
    for _ in 0..50 {
        game.step().unwrap();
    }
    let after = game.scene.world.get_body(ground).unwrap();
    assert_eq!(before.pos, after.pos);
    assert_eq!(before.rot, after.rot);
    assert!(game.ball_position().unwrap().y < 10_000_000);
}

#[test]
fn fast_sphere_does_not_tunnel_through_ground() {
    // 200 units/s straight down would cross the whole slab in one step;
    // the continuous-collision pass truncates the step instead.
    let (mut scene, ball) = ground_and_ball(
        16_666,
        700_000,
        v(0, 2_000_000, 0),
        v(0, -200_000_000, 0),
    );
    for _ in 0..10 {
        scene.step();
        let y = scene.world.get_body(ball).unwrap().pos.y;
        assert!(y > 400_000, "tunneled: y {}", y);
    }
}

#[test]
fn kinematic_body_advances_by_its_own_velocity() {
    let mut scene = Scene::new(v(0, -9_810_000, 0), 16_666, 8).unwrap();
    let k = scene
        .world
        .insert_body(body_spec(BodyKind::Kinematic, v(0, 0, 0), v(1_000_000, 0, 0)))
        .unwrap();
    for _ in 0..60 {
        scene.step();
    }
    let b = scene.world.get_body(k).unwrap();
    // 60 steps of 1_000_000 * 16_666 / 1_000_000 each; gravity does not
    // apply to kinematic bodies.
    assert_eq!(b.pos.x, 999_960);
    assert_eq!(b.pos.y, 0);
    assert_eq!(b.lin_vel, v(1_000_000, 0, 0));
}

#[test]
fn removed_tracked_ball_reports_invalid_handle() {
    let mut game = BouncerGame::new();
    game.scene.world.remove_body(game.ball).unwrap();
    assert_eq!(game.step(), Err(SimError::InvalidHandle));
    assert_eq!(game.ball_position(), Err(SimError::InvalidHandle));
}

#[test]
fn board_names_are_validated() {
    let mut game = BouncerGame::new();
    assert!(game.create_board("left").is_ok());
    assert!(game.create_board("right").is_ok());
    assert!(game.create_board("top").is_ok());
    assert!(game.create_board("bottom").is_ok());
    assert!(game.create_board("back").is_ok());
    assert_eq!(game.create_board("sideways"), Err(SimError::UnknownSide));
    assert_eq!(game.create_board(""), Err(SimError::UnknownSide));
}

#[test]
fn build_scene_adds_five_panels() {
    let mut game = BouncerGame::new();
    let before = game.scene.world.bodies.len();
    game.build_scene().unwrap();
    assert_eq!(game.scene.world.bodies.len(), before + 5);
    // The tracked ball still works afterwards.
    assert!(game.step().is_ok());
}

#[test]
fn ball_in_chamber_stays_inside() {
    // With all five elastic panels and the ground, a pushed ball keeps
    // rattling around without escaping the chamber around the origin.
    let mut game = BouncerGame::new();
    game.build_scene().unwrap();
    game.scene
        .world
        .apply_impulse(game.ball, v(2_000_000, 0, -2_000_000))
        .unwrap();
    for _ in 0..300 {
        let p = game.step().unwrap();
        assert!(p.y > 0, "fell through the ground: {}", p.y);
        assert!(p.x.abs() < 20_000_000 && p.z.abs() < 25_000_000);
    }
}

#[test]
fn sleeping_ball_wakes_on_impulse() {
    let (mut scene, ball) = ground_and_ball(16_666, 0, v(0, 500_000, 0), v(0, 0, 0));
    for _ in 0..120 {
        scene.step();
    }
    let asleep = scene.world.get_body(ball).unwrap();
    assert!(asleep.sleeping, "ball never went to sleep");
    scene.world.apply_impulse(ball, v(0, 3_000_000, 0)).unwrap();
    let woken = scene.world.get_body(ball).unwrap();
    assert!(!woken.sleeping);
    scene.step();
    let after = scene.world.get_body(ball).unwrap();
    assert!(after.pos.y > 500_000, "woken ball did not move");
}

#[test]
fn invalid_configurations_are_rejected() {
    assert_eq!(
        Scene::new(v(0, -9_810_000, 0), -1, 8).err(),
        Some(SimError::InvalidConfiguration)
    );
    let mut scene = Scene::new(v(0, -9_810_000, 0), 16_666, 8).unwrap();
    assert_eq!(scene.set_timestep(-5).err(), Some(SimError::InvalidConfiguration));
    assert!(scene.set_timestep(0).is_ok());
    // A position beyond the representable range is rejected.
    let bad = scene.world.insert_body(body_spec(
        BodyKind::Dynamic,
        v(1_000_000_000_000_001, 0, 0),
        v(0, 0, 0),
    ));
    assert_eq!(bad.err(), Some(SimError::InvalidConfiguration));
    // A sphere of zero radius is rejected.
    let b = scene
        .world
        .insert_body(body_spec(BodyKind::Dynamic, v(0, 0, 0), v(0, 0, 0)))
        .unwrap();
    let bad_shape = scene.world.insert_collider(
        ColliderSpec {
            shape: Shape::Sphere { radius: 0 },
            local_pos: v(0, 0, 0),
            friction: 0,
            restitution: 0,
            density: 1_000_000,
        },
        Some(b),
    );
    assert_eq!(bad_shape.err(), Some(SimError::InvalidConfiguration));
    // A negative restitution is rejected.
    let bad_rest = scene.world.insert_collider(
        ColliderSpec {
            shape: Shape::Sphere { radius: 500_000 },
            local_pos: v(0, 0, 0),
            friction: 0,
            restitution: -1,
            density: 1_000_000,
        },
        Some(b),
    );
    assert_eq!(bad_rest.err(), Some(SimError::InvalidConfiguration));
}

#[test]
fn mass_is_derived_from_attached_colliders() {
    let mut world = World::new();
    let b = world
        .insert_body(body_spec(BodyKind::Dynamic, v(0, 0, 0), v(0, 0, 0)))
        .unwrap();
    assert_eq!(world.get_body(b).unwrap().mass, 0);
    world
        .insert_collider(ball_collider(0, 0), Some(b))
        .unwrap();
    let with_sphere = world.get_body(b).unwrap();
    // (4/3) pi 0.5^3 = 0.523598...
    assert_eq!(with_sphere.mass, 523_598);
    assert_eq!(with_sphere.inv_mass, 1_909_862);
    // A second collider adds its own contribution.
    world
        .insert_collider(ball_collider(0, 0), Some(b))
        .unwrap();
    assert_eq!(world.get_body(b).unwrap().mass, 1_047_196);
}

#[test]
fn orientation_integrates_angular_velocity_and_stays_unit() {
    // One radian per second about +Z for one second: the quaternion ends
    // near (0, 0, sin 0.5, cos 0.5) and keeps unit norm thanks to the
    // renormalization.
    let mut scene = Scene::new(v(0, -9_810_000, 0), 16_666, 8).unwrap();
    let spec = BodySpec {
        kind: BodyKind::Dynamic,
        pos: v(0, 0, 0),
        rot: identity(),
        lin_vel: v(0, 0, 0),
        ang_vel: v(0, 0, 1_000_000),
    };
    let h = scene.world.insert_body(spec).unwrap();
    for _ in 0..60 {
        scene.step();
    }
    let q = scene.world.get_body(h).unwrap().rot;
    assert_eq!(q.x, 0);
    assert_eq!(q.y, 0);
    assert!((q.z - 479_426).abs() < 5_000, "z {}", q.z);
    assert!((q.w - 877_583).abs() < 5_000, "w {}", q.w);
    let norm_sq = q.x as i128 * q.x as i128 + q.y as i128 * q.y as i128 + q.z as i128 * q.z as i128
        + q.w as i128 * q.w as i128;
    assert!((norm_sq - 1_000_000_000_000i128).abs() < 2_000_000_000, "norm^2 {}", norm_sq);
}
