//! Collision: balls bounce off the top and bottom walls and off the paddles.

use vstd::prelude::*;
use crate::components::{Ball, Paddle, Side, Vec2};
use crate::config::ArenaConfig;

verus! {

/// Whether a ball at height `y` moving vertically at `vy` meets the bottom wall
/// (`y <= radius`, moving down) or the top wall (`y >= height - radius`, moving up).
pub open spec fn hits_wall(y: int, vy: int, radius: int, arena_height: int) -> bool {
    (y <= radius && vy < 0) || (y >= arena_height - radius && vy > 0)
}

/// The vertical velocity after the wall test: negated where the ball meets a wall.
pub open spec fn wall_vy(ball: Ball, arena_height: int) -> int {
    if hits_wall(ball.position.y as int, ball.velocity.y as int, ball.radius as int, arena_height) {
        -ball.velocity.y
    } else {
        ball.velocity.y as int
    }
}

/// Whether the ball's centre lies in the paddle's box outset by the ball's radius on
/// all sides. The box is `[cx - w/2 - r, cx + w/2 + r] x [cy - h/2 - r, cy + h/2 + r]`
/// for a paddle centred at `(cx, cy)`; it is tested at twice the scale, where its
/// corners are whole numbers.
pub open spec fn in_reach(ball: Ball, paddle: Paddle) -> bool {
    let (bx, by) = (2 * ball.position.x, 2 * ball.position.y);
    let (cx, cy) = (2 * paddle.position.x, 2 * paddle.position.y);
    let r = 2 * ball.radius;
    &&& cx - paddle.width - r <= bx <= cx + paddle.width + r
    &&& cy - paddle.height - r <= by <= cy + paddle.height + r
}

/// Whether a horizontal velocity `vx` heads toward a paddle on `side`.
pub open spec fn heads_toward(side: Side, vx: int) -> bool {
    (side == Side::Left && vx < 0) || (side == Side::Right && vx > 0)
}

/// The horizontal velocity `vx` after the test against one paddle.
pub open spec fn paddle_vx(vx: int, ball: Ball, paddle: Paddle) -> int {
    if in_reach(ball, paddle) && heads_toward(paddle.side, vx) {
        -vx
    } else {
        vx
    }
}

/// The horizontal velocity after the tests against `paddles`, in order.
pub open spec fn vx_after(ball: Ball, paddles: Seq<Paddle>) -> int
    decreases paddles.len(),
{
    if paddles.len() == 0 {
        ball.velocity.x as int
    } else {
        paddle_vx(vx_after(ball, paddles.drop_last()), ball, paddles.last())
    }
}

/// The ball after one collision pass: position and radius kept, velocity bounced.
pub open spec fn bounced(ball: Ball, arena_height: int, paddles: Seq<Paddle>) -> Ball {
    Ball {
        velocity: Vec2 {
            x: vx_after(ball, paddles) as i64,
            y: wall_vy(ball, arena_height) as i64,
        },
        ..ball
    }
}

/// Every ball after one collision pass.
pub open spec fn bounce_all(balls: Seq<Ball>, arena_height: int, paddles: Seq<Paddle>) -> Seq<Ball> {
    Seq::new(balls.len(), |i: int| bounced(balls[i], arena_height, paddles))
}

/// Every ball of `balls` is well formed.
pub open spec fn all_balls_wf(balls: Seq<Ball>) -> bool {
    forall|i: int| 0 <= i < balls.len() ==> #[trigger] balls[i].wf()
}

/// The paddle tests negate the horizontal velocity or keep it.
pub proof fn lemma_vx_after_magnitude(ball: Ball, paddles: Seq<Paddle>)
    ensures
        vx_after(ball, paddles) == ball.velocity.x || vx_after(ball, paddles) == -ball.velocity.x,
    decreases paddles.len(),
{
    if paddles.len() > 0 {
        lemma_vx_after_magnitude(ball, paddles.drop_last());
    }
}

/// A bounced ball is well formed when the ball was.
pub proof fn lemma_bounced_wf(ball: Ball, arena_height: int, paddles: Seq<Paddle>)
    requires
        ball.wf(),
    ensures
        bounced(ball, arena_height, paddles).wf(),
        bounced(ball, arena_height, paddles).velocity.x == vx_after(ball, paddles),
        bounced(ball, arena_height, paddles).velocity.y == wall_vy(ball, arena_height),
{
    lemma_vx_after_magnitude(ball, paddles);
}

/// Whether `(x, y)` lies in the box `[left, right] x [bottom, top]`, edges included.
pub fn point_in_rect(x: i128, y: i128, left: i128, bottom: i128, right: i128, top: i128) -> (r: bool)
    ensures
        r == (left <= x <= right && bottom <= y <= top),
{
    x >= left && x <= right && y >= bottom && y <= top
}

/// One collision pass on one ball: the wall test, then each paddle in order.
/// Only the velocity changes.
pub fn bounce_ball(ball: &mut Ball, arena_height: i64, paddles: &Vec<Paddle>)
    requires
        old(ball).wf(),
    ensures
        *final(ball) == bounced(*old(ball), arena_height as int, paddles@),
        final(ball).wf(),
{
    proof {
        lemma_bounced_wf(*ball, arena_height as int, paddles@);
    }
    let ghost start = *ball;
    let radius = ball.radius as i128;
    let ball_x = ball.position.x as i128;
    let ball_y = ball.position.y as i128;

    // Bounce at the bottom or the top of the arena, only when moving toward that wall,
    // so that a ball resting at the boundary does not bounce every frame.
    if (ball_y <= radius && ball.velocity.y < 0)
        || (ball_y >= arena_height as i128 - radius && ball.velocity.y > 0) {
        ball.velocity.y = -ball.velocity.y;
    }
    assert(ball.velocity.y == wall_vy(start, arena_height as int));

    let mut i: usize = 0;
    while i < paddles.len()
        invariant
            0 <= i <= paddles@.len(),
            start.wf(),
            ball.position == start.position,
            ball.radius == start.radius,
            ball.velocity.y == wall_vy(start, arena_height as int),
            ball.velocity.x == vx_after(start, paddles@.take(i as int)),
            radius == start.radius,
            ball_x == start.position.x,
            ball_y == start.position.y,
        decreases paddles@.len() - i,
    {
        let paddle = paddles[i];
        proof {
            lemma_vx_after_magnitude(start, paddles@.take(i as int));
            assert(paddles@.take(i + 1).drop_last() == paddles@.take(i as int));
        }
        let x2 = 2 * paddle.position.x as i128;
        let y2 = 2 * paddle.position.y as i128;
        let w = paddle.width as i128;
        let h = paddle.height as i128;
        // The ball touches the paddle when its centre lies in the paddle's box grown
        // by the radius on every side (compared at twice the scale).
        if point_in_rect(
            2 * ball_x,
            2 * ball_y,
            x2 - w - 2 * radius,
            y2 - h - 2 * radius,
            x2 + w + 2 * radius,
            y2 + h + 2 * radius,
        ) {
            // Bounce only when heading toward the paddle, which keeps a ball inside the
            // box from bouncing back and forth.
            if (paddle.side == Side::Left && ball.velocity.x < 0)
                || (paddle.side == Side::Right && ball.velocity.x > 0) {
                ball.velocity.x = -ball.velocity.x;
            }
        }
        i = i + 1;
    }
    proof {
        assert(paddles@.take(paddles@.len() as int) == paddles@);
    }
}

/// The collision pass over every ball.
pub struct BounceSystem;

impl BounceSystem {
    /// Bounces every ball off the walls of `arena` and off `paddles`.
    pub fn run(&self, balls: &mut Vec<Ball>, paddles: &Vec<Paddle>, arena: &ArenaConfig)
        requires
            all_balls_wf(old(balls)@),
        ensures
            final(balls)@ == bounce_all(old(balls)@, arena.height as int, paddles@),
            all_balls_wf(final(balls)@),
    {
        let ghost start = balls@;
        let mut i: usize = 0;
        while i < balls.len()
            invariant
                0 <= i <= balls@.len(),
                balls@.len() == start.len(),
                all_balls_wf(start),
                forall|j: int| 0 <= j < i ==> #[trigger] balls@[j] == bounced(start[j], arena.height as int, paddles@),
                forall|j: int| i <= j < balls@.len() ==> #[trigger] balls@[j] == start[j],
                forall|j: int| 0 <= j < i ==> #[trigger] balls@[j].wf(),
            decreases balls@.len() - i,
        {
            let mut ball = balls[i];
            assert(ball.wf());
            bounce_ball(&mut ball, arena.height, paddles);
            balls.set(i, ball);
            i = i + 1;
        }
        assert(balls@ == bounce_all(start, arena.height as int, paddles@));
    }
}

} // verus!
