//! Scoring: a ball that leaves the arena on the left or on the right scores a point
//! for the opposite side and is sent back from the middle.

use vstd::prelude::*;
use crate::components::{Ball, Vec2};
use crate::config::{ArenaConfig, ARENA_HEIGHT, ARENA_WIDTH};
use crate::resources::{add_point, decimal, decimal_text, raised, ScoreBoard, ScoreText};

verus! {

/// The ball reached the left edge: the right player scores.
pub open spec fn exits_left(ball: Ball) -> bool {
    ball.position.x <= ball.radius
}

/// The ball reached the right edge (and not the left one): the left player scores.
pub open spec fn exits_right(ball: Ball, arena_width: int) -> bool {
    !exits_left(ball) && ball.position.x >= arena_width - ball.radius
}

/// The ball after scoring: where it exits, its horizontal velocity is reversed and it
/// is put back on the vertical middle line; otherwise it is unchanged.
pub open spec fn after_scoring(ball: Ball, arena_width: int) -> Ball {
    if exits_left(ball) || exits_right(ball, arena_width) {
        Ball {
            position: Vec2 { x: (arena_width / 2) as i64, ..ball.position },
            velocity: Vec2 { x: -ball.velocity.x as i64, ..ball.velocity },
            ..ball
        }
    } else {
        ball
    }
}

/// Every ball after scoring.
pub open spec fn score_all(balls: Seq<Ball>, arena_width: int) -> Seq<Ball> {
    Seq::new(balls.len(), |i: int| after_scoring(balls[i], arena_width))
}

/// How many of `balls` exit on the left: points for the right player.
pub open spec fn right_points(balls: Seq<Ball>) -> nat
    decreases balls.len(),
{
    if balls.len() == 0 {
        0
    } else {
        right_points(balls.drop_last()) + if exits_left(balls.last()) { 1nat } else { 0nat }
    }
}

/// How many of `balls` exit on the right: points for the left player.
pub open spec fn left_points(balls: Seq<Ball>, arena_width: int) -> nat
    decreases balls.len(),
{
    if balls.len() == 0 {
        0
    } else {
        left_points(balls.drop_last(), arena_width)
            + if exits_right(balls.last(), arena_width) { 1nat } else { 0nat }
    }
}

/// The scoreboard after the balls `balls` were scored.
pub open spec fn scored_board(board: ScoreBoard, balls: Seq<Ball>, arena_width: int) -> ScoreBoard {
    ScoreBoard {
        score_left: raised(board.score_left as int, left_points(balls, arena_width)) as i32,
        score_right: raised(board.score_right as int, right_points(balls)) as i32,
    }
}

/// A text is rewritten to the new score when at least one point was scored.
pub open spec fn scored_text(text: Seq<char>, points: nat, score: int) -> Seq<char> {
    if points > 0 {
        decimal(score)
    } else {
        text
    }
}

/// Every ball is well formed enough to have its horizontal velocity negated.
pub open spec fn all_negatable(balls: Seq<Ball>) -> bool {
    forall|i: int| 0 <= i < balls.len() ==> #[trigger] balls[i].velocity.x > i64::MIN
}

/// One more point on top of `n`, held at the maximum.
proof fn lemma_raised_step(score: int, n: nat)
    ensures
        raised(raised(score, n), 1) == raised(score, n + 1),
{
}

/// Scores every ball that left the arena, in order, and updates the score texts of
/// the sides that scored.
pub fn score_balls(
    balls: &mut Vec<Ball>,
    board: &mut ScoreBoard,
    text: &mut ScoreText,
    arena_width: i64,
)
    requires
        arena_width >= 0,
        all_negatable(old(balls)@),
    ensures
        final(balls)@ == score_all(old(balls)@, arena_width as int),
        *final(board) == scored_board(*old(board), old(balls)@, arena_width as int),
        final(text).p2_score@ == scored_text(
            old(text).p2_score@,
            right_points(old(balls)@),
            final(board).score_right as int,
        ),
        final(text).p1_score@ == scored_text(
            old(text).p1_score@,
            left_points(old(balls)@, arena_width as int),
            final(board).score_left as int,
        ),
{
    let ghost start = balls@;
    let ghost board0 = *board;
    let ghost text0 = *text;
    let mut i: usize = 0;
    while i < balls.len()
        invariant
            0 <= i <= balls@.len(),
            balls@.len() == start.len(),
            arena_width >= 0,
            all_negatable(start),
            forall|j: int| 0 <= j < i ==> #[trigger] balls@[j] == after_scoring(start[j], arena_width as int),
            forall|j: int| i <= j < balls@.len() ==> #[trigger] balls@[j] == start[j],
            *board == scored_board(board0, start.take(i as int), arena_width as int),
            text.p2_score@ == scored_text(
                text0.p2_score@,
                right_points(start.take(i as int)),
                board.score_right as int,
            ),
            text.p1_score@ == scored_text(
                text0.p1_score@,
                left_points(start.take(i as int), arena_width as int),
                board.score_left as int,
            ),
        decreases balls@.len() - i,
    {
        let mut ball = balls[i];
        let ghost prefix = start.take(i as int);
        proof {
            assert(start.take(i + 1).drop_last() == prefix);
            assert(start.take(i + 1).last() == start[i as int]);
            lemma_raised_step(board0.score_right as int, right_points(prefix));
            lemma_raised_step(board0.score_left as int, left_points(prefix, arena_width as int));
        }
        let ball_x = ball.position.x as i128;
        let radius = ball.radius as i128;
        let did_hit = if ball_x <= radius {
            // The right player scored on the left side.
            board.score_right = add_point(board.score_right);
            text.p2_score = decimal_text(board.score_right);
            true
        } else if ball_x >= arena_width as i128 - radius {
            // The left player scored on the right side.
            board.score_left = add_point(board.score_left);
            text.p1_score = decimal_text(board.score_left);
            true
        } else {
            false
        };
        if did_hit {
            ball.velocity.x = -ball.velocity.x;
            ball.position.x = arena_width / 2;
        }
        balls.set(i, ball);
        i = i + 1;
    }
    proof {
        assert(start.take(start.len() as int) == start);
    }
    assert(balls@ == score_all(start, arena_width as int));
}

/// The scoring pass, on the arena of the session's configuration.
pub struct WinnerSystem;

impl WinnerSystem {
    /// Scores every ball that left `arena`.
    pub fn run(&self, balls: &mut Vec<Ball>, board: &mut ScoreBoard, text: &mut ScoreText, arena: &ArenaConfig)
        requires
            arena.wf(),
            all_negatable(old(balls)@),
        ensures
            final(balls)@ == score_all(old(balls)@, arena.width as int),
            *final(board) == scored_board(*old(board), old(balls)@, arena.width as int),
            final(text).p2_score@ == scored_text(
                old(text).p2_score@,
                right_points(old(balls)@),
                final(board).score_right as int,
            ),
            final(text).p1_score@ == scored_text(
                old(text).p1_score@,
                left_points(old(balls)@, arena.width as int),
                final(board).score_left as int,
            ),
    {
        score_balls(balls, board, text, arena.width);
    }
}

/// The scoring pass, on an arena of the default size.
pub struct Winner;

impl Winner {
    /// Scores every ball that left an arena of `ARENA_WIDTH` by `ARENA_HEIGHT`.
    pub fn run(&self, balls: &mut Vec<Ball>, board: &mut ScoreBoard, text: &mut ScoreText)
        requires
            all_negatable(old(balls)@),
        ensures
            final(balls)@ == score_all(old(balls)@, ARENA_WIDTH as int),
            *final(board) == scored_board(*old(board), old(balls)@, ARENA_WIDTH as int),
            final(text).p2_score@ == scored_text(
                old(text).p2_score@,
                right_points(old(balls)@),
                final(board).score_right as int,
            ),
            final(text).p1_score@ == scored_text(
                old(text).p1_score@,
                left_points(old(balls)@, ARENA_WIDTH as int),
                final(board).score_left as int,
            ),
    {
        let arena = ArenaConfig { height: ARENA_HEIGHT, width: ARENA_WIDTH };
        WinnerSystem.run(balls, board, text, &arena);
    }
}

} // verus!
