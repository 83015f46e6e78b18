//! Ball motion: every ball advances by its velocity times the elapsed time.

use vstd::prelude::*;
use crate::components::{Ball, Vec2};

verus! {

/// Where a coordinate `p` moving at `v` units per millisecond is after `dt` milliseconds.
pub open spec fn advanced(p: int, v: int, dt: int) -> int {
    p + v * dt
}

/// Whether the ball's new position after `dt` milliseconds fits the coordinate type.
pub open spec fn motion_fits(ball: Ball, dt: int) -> bool {
    &&& i64::MIN <= advanced(ball.position.x as int, ball.velocity.x as int, dt) <= i64::MAX
    &&& i64::MIN <= advanced(ball.position.y as int, ball.velocity.y as int, dt) <= i64::MAX
}

/// Whether every ball's new position after `dt` milliseconds fits the coordinate type.
pub open spec fn all_motion_fits(balls: Seq<Ball>, dt: int) -> bool {
    forall|i: int| 0 <= i < balls.len() ==> motion_fits(#[trigger] balls[i], dt)
}

/// The ball after `dt` milliseconds: moved by `velocity * dt`, with no clamping.
pub open spec fn moved(ball: Ball, dt: int) -> Ball {
    Ball {
        position: Vec2 {
            x: advanced(ball.position.x as int, ball.velocity.x as int, dt) as i64,
            y: advanced(ball.position.y as int, ball.velocity.y as int, dt) as i64,
        },
        ..ball
    }
}

/// Every ball after `dt` milliseconds.
pub open spec fn move_all(balls: Seq<Ball>, dt: int) -> Seq<Ball> {
    Seq::new(balls.len(), |i: int| moved(balls[i], dt))
}

/// One coordinate advanced by `v * dt`, or `None` where the result leaves `i64`.
fn advance(p: i64, v: i64, dt: u32) -> (r: Option<i64>)
    ensures
        r is Some <==> i64::MIN <= advanced(p as int, v as int, dt as int) <= i64::MAX,
        r is Some ==> r->0 == advanced(p as int, v as int, dt as int),
{
    assert(-0x8000_0000_0000_0000 * 0x1_0000_0000 <= v * dt <= 0x7fff_ffff_ffff_ffff * 0x1_0000_0000)
        by (nonlinear_arith)
        requires
            i64::MIN <= v <= i64::MAX,
            0 <= dt <= u32::MAX,
    ;
    let q = p as i128 + (v as i128) * (dt as i128);
    if q < i64::MIN as i128 || q > i64::MAX as i128 {
        None
    } else {
        Some(q as i64)
    }
}

/// Whether every ball of `balls` can be moved by `dt` milliseconds without leaving
/// the coordinate type.
pub fn balls_can_move(balls: &Vec<Ball>, dt: u32) -> (r: bool)
    ensures
        r == all_motion_fits(balls@, dt as int),
{
    let mut i: usize = 0;
    while i < balls.len()
        invariant
            0 <= i <= balls@.len(),
            forall|j: int| 0 <= j < i ==> motion_fits(#[trigger] balls@[j], dt as int),
        decreases balls@.len() - i,
    {
        let ball = balls[i];
        let x = advance(ball.position.x, ball.velocity.x, dt);
        let y = advance(ball.position.y, ball.velocity.y, dt);
        if x.is_none() || y.is_none() {
            assert(!motion_fits(balls@[i as int], dt as int));
            return false;
        }
        i = i + 1;
    }
    true
}

/// Moves every ball by its velocity over `dt` milliseconds.
pub fn move_balls(balls: &mut Vec<Ball>, dt: u32)
    requires
        all_motion_fits(old(balls)@, dt as int),
    ensures
        final(balls)@ == move_all(old(balls)@, dt as int),
{
    let ghost start = balls@;
    let mut i: usize = 0;
    while i < balls.len()
        invariant
            0 <= i <= balls@.len(),
            balls@.len() == start.len(),
            all_motion_fits(start, dt as int),
            forall|j: int| 0 <= j < i ==> #[trigger] balls@[j] == moved(start[j], dt as int),
            forall|j: int| i <= j < balls@.len() ==> #[trigger] balls@[j] == start[j],
        decreases balls@.len() - i,
    {
        let mut ball = balls[i];
        assert(motion_fits(start[i as int], dt as int));
        let x = advance(ball.position.x, ball.velocity.x, dt);
        let y = advance(ball.position.y, ball.velocity.y, dt);
        match (x, y) {
            (Some(x), Some(y)) => {
                ball.position = Vec2 { x, y };
            },
            _ => {},
        }
        balls.set(i, ball);
        i = i + 1;
    }
    assert(balls@ == move_all(start, dt as int));
}

/// The ball motion pass.
pub struct MoveBallsSystem;

impl MoveBallsSystem {
    /// Moves every ball by its velocity over `dt` milliseconds.
    pub fn run(&self, balls: &mut Vec<Ball>, dt: u32)
        requires
            all_motion_fits(old(balls)@, dt as int),
        ensures
            final(balls)@ == move_all(old(balls)@, dt as int),
    {
        move_balls(balls, dt);
    }
}

/// The ball motion pass.
pub struct MoveBalls;

impl MoveBalls {
    /// Moves every ball by its velocity over `dt` milliseconds.
    pub fn run(&self, balls: &mut Vec<Ball>, dt: u32)
        requires
            all_motion_fits(old(balls)@, dt as int),
        ensures
            final(balls)@ == move_all(old(balls)@, dt as int),
    {
        move_balls(balls, dt);
    }
}

} // verus!
