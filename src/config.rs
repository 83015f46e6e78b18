//! The configuration of a session, injected once at its start.

use vstd::prelude::*;
use crate::components::Vec2;

verus! {

/// Coordinate units in one world unit.
pub const UNITS_PER_WORLD_UNIT: i64 = 10_000;

/// Default arena height: 100 world units.
pub const ARENA_HEIGHT: i64 = 1_000_000;
/// Default arena width: 100 world units.
pub const ARENA_WIDTH: i64 = 1_000_000;
/// Default paddle height: 15 world units.
pub const PADDLE_HEIGHT: i64 = 150_000;
/// Default paddle width: 2.5 world units.
pub const PADDLE_WIDTH: i64 = 25_000;
/// Default ball radius: 2.5 world units.
pub const BALL_RADIUS: i64 = 25_000;
/// Default horizontal ball velocity: 75 world units per second.
pub const BALL_VELOCITY_X: i64 = 750;
/// Default vertical ball velocity: 50 world units per second.
pub const BALL_VELOCITY_Y: i64 = 500;

/// The arena spans `[0, width] x [0, height]`.
#[derive(Clone, Copy, Debug, PartialEq, Eq, Structural)]
pub struct ArenaConfig {
    pub height: i64,
    pub width: i64,
}

/// The ball a session starts with.
#[derive(Clone, Copy, Debug, PartialEq, Eq, Structural)]
pub struct BallConfig {
    pub velocity: Vec2,
    pub radius: i64,
}

/// The size of both paddles.
#[derive(Clone, Copy, Debug, PartialEq, Eq, Structural)]
pub struct PaddleConfig {
    pub height: i64,
    pub width: i64,
}

/// The whole configuration of a session.
#[derive(Clone, Copy, Debug, PartialEq, Eq, Structural)]
pub struct GameConfig {
    pub arena: ArenaConfig,
    pub ball: BallConfig,
    pub paddle: PaddleConfig,
}

impl ArenaConfig {
    /// Both dimensions are positive.
    pub open spec fn wf(self) -> bool {
        self.height > 0 && self.width > 0
    }
}

impl PaddleConfig {
    /// Both dimensions are not negative.
    pub open spec fn wf(self) -> bool {
        self.height >= 0 && self.width >= 0
    }
}

impl Default for ArenaConfig {
    fn default() -> (r: ArenaConfig)
        ensures
            r.height == ARENA_HEIGHT,
            r.width == ARENA_WIDTH,
    {
        ArenaConfig { height: ARENA_HEIGHT, width: ARENA_WIDTH }
    }
}

impl Default for BallConfig {
    fn default() -> (r: BallConfig)
        ensures
            r.velocity == (Vec2 { x: BALL_VELOCITY_X, y: BALL_VELOCITY_Y }),
            r.radius == BALL_RADIUS,
    {
        BallConfig { velocity: Vec2 { x: BALL_VELOCITY_X, y: BALL_VELOCITY_Y }, radius: BALL_RADIUS }
    }
}

impl Default for PaddleConfig {
    fn default() -> (r: PaddleConfig)
        ensures
            r.height == PADDLE_HEIGHT,
            r.width == PADDLE_WIDTH,
    {
        PaddleConfig { height: PADDLE_HEIGHT, width: PADDLE_WIDTH }
    }
}

impl Default for GameConfig {
    fn default() -> (r: GameConfig)
        ensures
            r.arena == (ArenaConfig { height: ARENA_HEIGHT, width: ARENA_WIDTH }),
            r.ball == (BallConfig {
                velocity: Vec2 { x: BALL_VELOCITY_X, y: BALL_VELOCITY_Y },
                radius: BALL_RADIUS,
            }),
            r.paddle == (PaddleConfig { height: PADDLE_HEIGHT, width: PADDLE_WIDTH }),
    {
        GameConfig {
            arena: ArenaConfig::default(),
            ball: BallConfig::default(),
            paddle: PaddleConfig::default(),
        }
    }
}

} // verus!
