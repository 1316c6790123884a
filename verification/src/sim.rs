//! The simulation facade: a bouncing-ball sandbox. Construction builds
//! the fixed ground and one tracked dynamic ball; one call advances the
//! scene by one fixed step and reports the ball's position; boundary
//! panels for a closed chamber can be added by name.

use vstd::prelude::*;
use vstd::string::StringSliceAdditionalSpecFns;
use crate::fx::{FX_ONE};
use crate::scene::{Scene, spec_scene_step};
use crate::shape::Shape;
use crate::store::{
    Body, BodyHandle, BodyKind, BodySpec, Collider, ColliderSpec, SimError, Slot, World,
    spec_body_spec_valid, spec_collider_spec_valid, spec_insert_at, spec_insert_handle,
    spec_mass_props_upto, spec_new_body, spec_refresh_mass, lemma_first_free_props,
};
use crate::vec3::{Quat, Vec3};

verus! {

/// Default gravity: (0, -9.81, 0).
pub const GRAVITY_Y: i64 = -9_810_000;

/// Default fixed timestep: 1/60 s.
pub const DEFAULT_TIMESTEP: i64 = 16_666;

/// Default solver iteration count.
pub const DEFAULT_SOLVER_ITERS: u32 = 8;

/// Ball radius 0.5 and starting position (0, 10, 1).
pub const BALL_RADIUS: i64 = 500_000;

/// Ground top surface sits at y = 0: a 200 x 0.2 x 200 slab centered at
/// y = -0.1.
pub const GROUND_Y: i64 = -100_000;

/// Ground and ball surface response: moderate friction, restitution 0.7.
pub const SURFACE_FRICTION: i64 = 500_000;

/// Restitution of the ground and the ball (their average combines to the
/// same value).
pub const SURFACE_RESTITUTION: i64 = 700_000;

/// Boundary panel edge length (10) as a half-extent is 5.
pub const BOARD_HALF: i64 = 5_000_000;

/// Boundary panel half-thickness.
pub const BOARD_THICKNESS: i64 = 10_000;

/// sin(pi/4) = cos(pi/4), for the quarter-turn panel orientations.
pub const SIN_QUARTER_TURN: i64 = 707_107;

/// Negated panel constants (spec positions are plain machine integers).
pub const NEG_BOARD_HALF: i64 = -5_000_000;

pub const BOARD_BACK_Z: i64 = -10_000_000;

pub const NEG_SIN_QUARTER_TURN: i64 = -707_107;

/// A named boundary panel of the rebounding chamber.
#[derive(Clone, Copy, PartialEq, Eq, Structural, Debug)]
pub enum BoardSide {
    Left,
    Right,
    Top,
    Bottom,
    Back,
}

/// Recognized side names: "left", "right", "top", "bottom", "back" (as
/// UTF-8 bytes). Anything else is rejected.
pub open spec fn spec_parse_side(bs: Seq<u8>) -> Option<BoardSide> {
    if bs == seq![108u8, 101u8, 102u8, 116u8] {
        Some(BoardSide::Left)
    } else if bs == seq![114u8, 105u8, 103u8, 104u8, 116u8] {
        Some(BoardSide::Right)
    } else if bs == seq![116u8, 111u8, 112u8] {
        Some(BoardSide::Top)
    } else if bs == seq![98u8, 111u8, 116u8, 116u8, 111u8, 109u8] {
        Some(BoardSide::Bottom)
    } else if bs == seq![98u8, 97u8, 99u8, 107u8] {
        Some(BoardSide::Back)
    } else {
        None
    }
}

/// Placement of each panel: a distinct translation and quarter-turn
/// orientation per named side of the chamber.
pub open spec fn spec_board_pose(side: BoardSide) -> (Vec3, Quat) {
    match side {
        BoardSide::Right => (
            Vec3 { x: BOARD_HALF, y: 0, z: NEG_BOARD_HALF },
            Quat { x: 0, y: SIN_QUARTER_TURN, z: 0, w: SIN_QUARTER_TURN },
        ),
        BoardSide::Back => (
            Vec3 { x: 0, y: 0, z: BOARD_BACK_Z },
            Quat { x: 0, y: 0, z: 0, w: FX_ONE },
        ),
        BoardSide::Left => (
            Vec3 { x: NEG_BOARD_HALF, y: 0, z: NEG_BOARD_HALF },
            Quat { x: 0, y: NEG_SIN_QUARTER_TURN, z: 0, w: SIN_QUARTER_TURN },
        ),
        BoardSide::Top => (
            Vec3 { x: 0, y: BOARD_HALF, z: NEG_BOARD_HALF },
            Quat { x: NEG_SIN_QUARTER_TURN, y: 0, z: 0, w: SIN_QUARTER_TURN },
        ),
        BoardSide::Bottom => (
            Vec3 { x: 0, y: NEG_BOARD_HALF, z: NEG_BOARD_HALF },
            Quat { x: SIN_QUARTER_TURN, y: 0, z: 0, w: SIN_QUARTER_TURN },
        ),
    }
}

pub open spec fn spec_board_body_spec(side: BoardSide) -> BodySpec {
    BodySpec {
        kind: BodyKind::Fixed,
        pos: spec_board_pose(side).0,
        rot: spec_board_pose(side).1,
        lin_vel: Vec3 { x: 0, y: 0, z: 0 },
        ang_vel: Vec3 { x: 0, y: 0, z: 0 },
    }
}

/// Every boundary panel is frictionless and perfectly elastic by design,
/// distinct from the ground's own surface response.
pub open spec fn spec_board_collider_spec() -> ColliderSpec {
    ColliderSpec {
        shape: Shape::Cuboid { hx: BOARD_HALF, hy: BOARD_HALF, hz: BOARD_THICKNESS },
        local_pos: Vec3 { x: 0, y: 0, z: 0 },
        friction: 0,
        restitution: FX_ONE,
        density: FX_ONE,
    }
}

/// The store after inserting one body with one attached collider.
pub open spec fn spec_add_entity(
    bodies: Seq<Slot<Body>>,
    cols: Seq<Slot<Collider>>,
    bs: BodySpec,
    cs: ColliderSpec,
) -> (Seq<Slot<Body>>, Seq<Slot<Collider>>, BodyHandle) {
    let b1 = spec_insert_at(bodies, spec_new_body(bs));
    let hp = spec_insert_handle(bodies);
    let h = BodyHandle { index: hp.0 as usize, generation: hp.1 };
    let col = Collider {
        shape: cs.shape,
        parent: Some(h),
        local_pos: cs.local_pos,
        friction: cs.friction,
        restitution: cs.restitution,
        density: cs.density,
    };
    let c1 = spec_insert_at(cols, col);
    let props = spec_mass_props_upto(c1, h, c1.len() as int);
    let b2 = b1.update(
        hp.0,
        Slot {
            generation: hp.1,
            val: Some(spec_refresh_mass(spec_new_body(bs), props.0, props.1)),
        },
    );
    (b2, c1, h)
}

/// The ground: a fixed 200 x 0.2 x 200 slab whose top face is y = 0.
pub open spec fn spec_ground_body_spec() -> BodySpec {
    BodySpec {
        kind: BodyKind::Fixed,
        pos: Vec3 { x: 0, y: GROUND_Y, z: 0 },
        rot: Quat { x: 0, y: 0, z: 0, w: FX_ONE },
        lin_vel: Vec3 { x: 0, y: 0, z: 0 },
        ang_vel: Vec3 { x: 0, y: 0, z: 0 },
    }
}

pub open spec fn spec_ground_collider_spec() -> ColliderSpec {
    ColliderSpec {
        shape: Shape::Cuboid { hx: 100_000_000, hy: 100_000, hz: 100_000_000 },
        local_pos: Vec3 { x: 0, y: 0, z: 0 },
        friction: SURFACE_FRICTION,
        restitution: SURFACE_RESTITUTION,
        density: FX_ONE,
    }
}

/// The body and collider arenas after adding one named boundary panel.
pub open spec fn spec_add_panel(
    bodies: Seq<Slot<Body>>,
    cols: Seq<Slot<Collider>>,
    side: BoardSide,
) -> (Seq<Slot<Body>>, Seq<Slot<Collider>>) {
    let t = spec_add_entity(bodies, cols, spec_board_body_spec(side), spec_board_collider_spec());
    (t.0, t.1)
}

/// The whole world `BouncerGame::new` builds: the ground, then the
/// tracked ball, into empty arenas.
pub open spec fn spec_initial_world() -> (Seq<Slot<Body>>, Seq<Slot<Collider>>, BodyHandle) {
    let g = spec_add_entity(
        Seq::<Slot<Body>>::empty(),
        Seq::<Slot<Collider>>::empty(),
        spec_ground_body_spec(),
        spec_ground_collider_spec(),
    );
    spec_add_entity(g.0, g.1, spec_ball_body_spec(), spec_ball_collider_spec())
}

/// The tracked-ball simulation: a scene holding the ground (and any added
/// panels) plus one tracked dynamic ball.
pub struct BouncerGame {
    pub scene: Scene,
    pub ball: BodyHandle,
}

impl World {
    /// Insert a body and one collider attached to it, in one move.
    fn add_entity(&mut self, bs: BodySpec, cs: ColliderSpec) -> (r: BodyHandle)
        requires
            spec_body_spec_valid(bs),
            spec_collider_spec_valid(cs),
        ensures
            (final(self).bodies@, final(self).colliders@, r) == spec_add_entity(
                old(self).bodies@,
                old(self).colliders@,
                bs,
                cs,
            ),
            final(self).joints@ == old(self).joints@,
            final(self).spec_body_valid(r),
            final(self).spec_body_at(r) == spec_refresh_mass(
                spec_new_body(bs),
                spec_mass_props_upto(
                    final(self).colliders@,
                    r,
                    final(self).colliders@.len() as int,
                ).0,
                spec_mass_props_upto(
                    final(self).colliders@,
                    r,
                    final(self).colliders@.len() as int,
                ).1,
            ),
    {
        let h = match self.insert_body(bs) {
            Ok(h) => h,
            Err(_) => {
                proof {
                    assert(false);
                }
                BodyHandle { index: 0, generation: 0 }
            },
        };
        match self.insert_collider(cs, Some(h)) {
            Ok(_) => {},
            Err(_) => {
                proof {
                    assert(false);
                }
            },
        }
        proof {
            lemma_first_free_props(old(self).bodies@, 0);
        }
        h
    }
}

impl BouncerGame {
    /// Build the default simulation: gravity (0, -9.81, 0), timestep
    /// 1/60, the fixed ground slab with its top at y = 0, and the tracked
    /// dynamic ball of radius 0.5 starting at rest at (0, 10, 1).
    pub fn new() -> (r: BouncerGame)
        ensures
            r.scene.gravity == (Vec3 { x: 0, y: GRAVITY_Y, z: 0 }),
            r.scene.dt == DEFAULT_TIMESTEP,
            r.scene.solver_iters == DEFAULT_SOLVER_ITERS,
            (r.scene.world.bodies@, r.scene.world.colliders@, r.ball) == spec_initial_world(),
            r.scene.world.joints@.len() == 0,
            r.scene.world.spec_body_valid(r.ball),
            r.scene.world.spec_body_at(r.ball).kind is Dynamic,
            r.scene.world.spec_body_at(r.ball).pos == (Vec3 { x: 0, y: 10_000_000, z: 1_000_000 }),
            r.scene.world.spec_body_at(r.ball).lin_vel == (Vec3 { x: 0, y: 0, z: 0 }),
            !r.scene.world.spec_body_at(r.ball).sleeping,
    {
        let scene = match Scene::new(
            Vec3 { x: 0, y: GRAVITY_Y, z: 0 },
            DEFAULT_TIMESTEP,
            DEFAULT_SOLVER_ITERS,
        ) {
            Ok(s) => s,
            Err(_) => {
                proof {
                    assert(false);
                }
                Scene {
                    world: World::new(),
                    gravity: Vec3 { x: 0, y: 0, z: 0 },
                    dt: 0,
                    solver_iters: 0,
                }
            },
        };
        let mut game = BouncerGame { scene, ball: BodyHandle { index: 0, generation: 0 } };
        proof {
            assert(game.scene.world.bodies@ =~= Seq::<Slot<Body>>::empty());
            assert(game.scene.world.colliders@ =~= Seq::<Slot<Collider>>::empty());
        }
        let _ground = game.scene.world.add_entity(
            BodySpec {
                kind: BodyKind::Fixed,
                pos: Vec3 { x: 0, y: GROUND_Y, z: 0 },
                rot: Quat { x: 0, y: 0, z: 0, w: FX_ONE },
                lin_vel: Vec3 { x: 0, y: 0, z: 0 },
                ang_vel: Vec3 { x: 0, y: 0, z: 0 },
            },
            ColliderSpec {
                shape: Shape::Cuboid { hx: 100_000_000, hy: 100_000, hz: 100_000_000 },
                local_pos: Vec3 { x: 0, y: 0, z: 0 },
                friction: SURFACE_FRICTION,
                restitution: SURFACE_RESTITUTION,
                density: FX_ONE,
            },
        );
        let created = game.create_ball();
        match created {
            Ok(_) => {},
            Err(_) => {
                proof {
                    assert(false);
                }
            },
        }
        game
    }

    /// Insert a fresh tracked ball: dynamic, radius 0.5, at rest at
    /// (0, 10, 1), with the shared surface response. The tracked handle
    /// moves to the new ball.
    pub fn create_ball(&mut self) -> (r: Result<(), SimError>)
        ensures
            r is Ok,
            final(self).scene.world.spec_body_valid(final(self).ball),
            final(self).scene.world.spec_body_at(final(self).ball).kind is Dynamic,
            final(self).scene.world.spec_body_at(final(self).ball).pos == (Vec3 {
                x: 0,
                y: 10_000_000,
                z: 1_000_000,
            }),
            final(self).scene.world.spec_body_at(final(self).ball).lin_vel == (Vec3 {
                x: 0,
                y: 0,
                z: 0,
            }),
            !final(self).scene.world.spec_body_at(final(self).ball).sleeping,
            (final(self).scene.world.bodies@, final(self).scene.world.colliders@, final(self).ball)
                == spec_add_entity(
                old(self).scene.world.bodies@,
                old(self).scene.world.colliders@,
                spec_ball_body_spec(),
                spec_ball_collider_spec(),
            ),
            final(self).scene.world.joints@ == old(self).scene.world.joints@,
            final(self).scene.gravity == old(self).scene.gravity,
            final(self).scene.dt == old(self).scene.dt,
            final(self).scene.solver_iters == old(self).scene.solver_iters,
    {
        let h = self.scene.world.add_entity(
            BodySpec {
                kind: BodyKind::Dynamic,
                pos: Vec3 { x: 0, y: 10_000_000, z: 1_000_000 },
                rot: Quat { x: 0, y: 0, z: 0, w: FX_ONE },
                lin_vel: Vec3 { x: 0, y: 0, z: 0 },
                ang_vel: Vec3 { x: 0, y: 0, z: 0 },
            },
            ColliderSpec {
                shape: Shape::Sphere { radius: BALL_RADIUS },
                local_pos: Vec3 { x: 0, y: 0, z: 0 },
                friction: SURFACE_FRICTION,
                restitution: SURFACE_RESTITUTION,
                density: FX_ONE,
            },
        );
        self.ball = h;
        Ok(())
    }

    /// Add every boundary panel of the rebounding chamber: the five named
    /// sides in order Right, Back, Left, Top, Bottom, each a fixed,
    /// frictionless, perfectly elastic thin cuboid at its own pose.
    pub fn build_scene(&mut self) -> (r: Result<(), SimError>)
        ensures
            r is Ok,
            (final(self).scene.world.bodies@, final(self).scene.world.colliders@) == {
                let p1 = spec_add_panel(
                    old(self).scene.world.bodies@,
                    old(self).scene.world.colliders@,
                    BoardSide::Right,
                );
                let p2 = spec_add_panel(p1.0, p1.1, BoardSide::Back);
                let p3 = spec_add_panel(p2.0, p2.1, BoardSide::Left);
                let p4 = spec_add_panel(p3.0, p3.1, BoardSide::Top);
                spec_add_panel(p4.0, p4.1, BoardSide::Bottom)
            },
            final(self).scene.world.joints@ == old(self).scene.world.joints@,
            final(self).ball == old(self).ball,
            final(self).scene.gravity == old(self).scene.gravity,
            final(self).scene.dt == old(self).scene.dt,
            final(self).scene.solver_iters == old(self).scene.solver_iters,
    {
        let _right = self.create_board_side(BoardSide::Right);
        let _back = self.create_board_side(BoardSide::Back);
        let _left = self.create_board_side(BoardSide::Left);
        let _top = self.create_board_side(BoardSide::Top);
        let _bottom = self.create_board_side(BoardSide::Bottom);
        Ok(())
    }

    /// Add one boundary panel: a fixed body at the side's own pose with a
    /// thin frictionless, perfectly elastic cuboid.
    pub fn create_board_side(&mut self, side: BoardSide) -> (r: Result<(), SimError>)
        ensures
            r is Ok,
            (final(self).scene.world.bodies@, final(self).scene.world.colliders@)
                == spec_add_panel(
                old(self).scene.world.bodies@,
                old(self).scene.world.colliders@,
                side,
            ),
            final(self).scene.world.joints@ == old(self).scene.world.joints@,
            final(self).ball == old(self).ball,
            final(self).scene.gravity == old(self).scene.gravity,
            final(self).scene.dt == old(self).scene.dt,
            final(self).scene.solver_iters == old(self).scene.solver_iters,
    {
        let pose: (Vec3, Quat) = match side {
            BoardSide::Right => (
                Vec3 { x: BOARD_HALF, y: 0, z: NEG_BOARD_HALF },
                Quat { x: 0, y: SIN_QUARTER_TURN, z: 0, w: SIN_QUARTER_TURN },
            ),
            BoardSide::Back => (
                Vec3 { x: 0, y: 0, z: BOARD_BACK_Z },
                Quat { x: 0, y: 0, z: 0, w: FX_ONE },
            ),
            BoardSide::Left => (
                Vec3 { x: NEG_BOARD_HALF, y: 0, z: NEG_BOARD_HALF },
                Quat { x: 0, y: NEG_SIN_QUARTER_TURN, z: 0, w: SIN_QUARTER_TURN },
            ),
            BoardSide::Top => (
                Vec3 { x: 0, y: BOARD_HALF, z: NEG_BOARD_HALF },
                Quat { x: NEG_SIN_QUARTER_TURN, y: 0, z: 0, w: SIN_QUARTER_TURN },
            ),
            BoardSide::Bottom => (
                Vec3 { x: 0, y: NEG_BOARD_HALF, z: NEG_BOARD_HALF },
                Quat { x: SIN_QUARTER_TURN, y: 0, z: 0, w: SIN_QUARTER_TURN },
            ),
        };
        let _h = self.scene.world.add_entity(
            BodySpec {
                kind: BodyKind::Fixed,
                pos: pose.0,
                rot: pose.1,
                lin_vel: Vec3 { x: 0, y: 0, z: 0 },
                ang_vel: Vec3 { x: 0, y: 0, z: 0 },
            },
            ColliderSpec {
                shape: Shape::Cuboid { hx: BOARD_HALF, hy: BOARD_HALF, hz: BOARD_THICKNESS },
                local_pos: Vec3 { x: 0, y: 0, z: 0 },
                friction: 0,
                restitution: FX_ONE,
                density: FX_ONE,
            },
        );
        Ok(())
    }

    /// Add one boundary panel by name; an unrecognized name is rejected
    /// with a diagnostic error and the scene is left untouched.
    pub fn create_board(&mut self, side: &str) -> (r: Result<(), SimError>)
        ensures
            r is Ok <==> spec_parse_side(side.spec_bytes()) is Some,
            r is Err ==> r == Err::<(), SimError>(SimError::UnknownSide) && final(self).scene.world
                == old(self).scene.world,
            spec_parse_side(side.spec_bytes()) is Some ==> (
            final(self).scene.world.bodies@,
            final(self).scene.world.colliders@,
            ) == spec_add_panel(
                old(self).scene.world.bodies@,
                old(self).scene.world.colliders@,
                spec_parse_side(side.spec_bytes())->0,
            ),
            final(self).scene.world.joints@ == old(self).scene.world.joints@,
            final(self).ball == old(self).ball,
            final(self).scene.gravity == old(self).scene.gravity,
            final(self).scene.dt == old(self).scene.dt,
            final(self).scene.solver_iters == old(self).scene.solver_iters,
    {
        match parse_side(side) {
            Some(s) => self.create_board_side(s),
            None => Err(SimError::UnknownSide),
        }
    }

    /// Advance the simulation by one fixed step and report the tracked
    /// ball's position; a removed tracked body is an error, never a
    /// crash.
    pub fn step(&mut self) -> (r: Result<Vec3, SimError>)
        ensures
            final(self).scene.world.bodies@ == spec_scene_step(
                old(self).scene.world.bodies@,
                old(self).scene.world.colliders@,
                old(self).scene.world.joints@,
                old(self).scene.gravity,
                old(self).scene.dt,
                old(self).scene.solver_iters,
            ),
            final(self).scene.world.colliders@ == old(self).scene.world.colliders@,
            final(self).scene.world.joints@ == old(self).scene.world.joints@,
            final(self).ball == old(self).ball,
            final(self).scene.gravity == old(self).scene.gravity,
            final(self).scene.dt == old(self).scene.dt,
            final(self).scene.solver_iters == old(self).scene.solver_iters,
            r is Ok <==> final(self).scene.world.spec_body_valid(final(self).ball),
            old(self).scene.world.spec_body_valid(old(self).ball) ==> r is Ok,
            r is Ok ==> r->Ok_0 == final(self).scene.world.spec_body_at(final(self).ball).pos,
            r is Err ==> r == Err::<Vec3, SimError>(SimError::InvalidHandle),
    {
        proof {
            crate::scene::lemma_step_keeps_occupancy(
                self.scene.world.bodies@,
                self.scene.world.colliders@,
                self.scene.world.joints@,
                self.scene.gravity,
                self.scene.dt,
                self.scene.solver_iters,
            );
        }
        self.scene.step();
        match self.scene.world.get_body(self.ball) {
            Some(b) => Ok(b.pos),
            None => Err(SimError::InvalidHandle),
        }
    }

    /// The tracked ball's current world position.
    pub fn ball_position(&self) -> (r: Result<Vec3, SimError>)
        ensures
            r is Ok <==> self.scene.world.spec_body_valid(self.ball),
            r is Ok ==> r->Ok_0 == self.scene.world.spec_body_at(self.ball).pos,
            r is Err ==> r == Err::<Vec3, SimError>(SimError::InvalidHandle),
    {
        match self.scene.world.get_body(self.ball) {
            Some(b) => Ok(b.pos),
            None => Err(SimError::InvalidHandle),
        }
    }
}

pub open spec fn spec_ball_body_spec() -> BodySpec {
    BodySpec {
        kind: BodyKind::Dynamic,
        pos: Vec3 { x: 0, y: 10_000_000, z: 1_000_000 },
        rot: Quat { x: 0, y: 0, z: 0, w: FX_ONE },
        lin_vel: Vec3 { x: 0, y: 0, z: 0 },
        ang_vel: Vec3 { x: 0, y: 0, z: 0 },
    }
}

pub open spec fn spec_ball_collider_spec() -> ColliderSpec {
    ColliderSpec {
        shape: Shape::Sphere { radius: BALL_RADIUS },
        local_pos: Vec3 { x: 0, y: 0, z: 0 },
        friction: SURFACE_FRICTION,
        restitution: SURFACE_RESTITUTION,
        density: FX_ONE,
    }
}

/// Recognize a boundary-panel name.
pub fn parse_side(side: &str) -> (r: Option<BoardSide>)
    ensures
        r == spec_parse_side(side.spec_bytes()),
{
    let bs: &[u8] = side.as_bytes();
    let n: usize = bs.len();
    if n == 4 && bs[0] == 108 && bs[1] == 101 && bs[2] == 102 && bs[3] == 116 {
        proof {
            assert(side.spec_bytes() =~= seq![108u8, 101u8, 102u8, 116u8]);
        }
        Some(BoardSide::Left)
    } else if n == 5 && bs[0] == 114 && bs[1] == 105 && bs[2] == 103 && bs[3] == 104 && bs[4]
        == 116 {
        proof {
            assert(side.spec_bytes() =~= seq![114u8, 105u8, 103u8, 104u8, 116u8]);
        }
        Some(BoardSide::Right)
    } else if n == 3 && bs[0] == 116 && bs[1] == 111 && bs[2] == 112 {
        proof {
            assert(side.spec_bytes() =~= seq![116u8, 111u8, 112u8]);
        }
        Some(BoardSide::Top)
    } else if n == 6 && bs[0] == 98 && bs[1] == 111 && bs[2] == 116 && bs[3] == 116 && bs[4] == 111
        && bs[5] == 109 {
        proof {
            assert(side.spec_bytes() =~= seq![98u8, 111u8, 116u8, 116u8, 111u8, 109u8]);
        }
        Some(BoardSide::Bottom)
    } else if n == 4 && bs[0] == 98 && bs[1] == 97 && bs[2] == 99 && bs[3] == 107 {
        proof {
            assert(side.spec_bytes() =~= seq![98u8, 97u8, 99u8, 107u8]);
        }
        Some(BoardSide::Back)
    } else {
        proof {
            assert(spec_parse_side(side.spec_bytes()) is None) by {
                if side.spec_bytes() == seq![108u8, 101u8, 102u8, 116u8] {
                    assert(false);
                }
                if side.spec_bytes() == seq![114u8, 105u8, 103u8, 104u8, 116u8] {
                    assert(false);
                }
                if side.spec_bytes() == seq![116u8, 111u8, 112u8] {
                    assert(false);
                }
                if side.spec_bytes() == seq![98u8, 111u8, 116u8, 116u8, 111u8, 109u8] {
                    assert(false);
                }
                if side.spec_bytes() == seq![98u8, 97u8, 99u8, 107u8] {
                    assert(false);
                }
            }
        }
        None
    }
}

} // verus!
