//! Laws of the simulation, proved over the models that the passes' contracts use.

use vstd::prelude::*;
use crate::bounce::{bounced, heads_toward, in_reach, lemma_bounced_wf, vx_after, wall_vy};
use crate::commands::Command;
use crate::components::{Ball, Paddle, Side};
use crate::paddles::{at_height, clamped_y, paddle_fits, paddle_index, paddle_step, paddles_after};
use crate::resources::{GameError, Player, Players, ScoreBoard, MAX_SCORE};
use crate::states::GameState;
use crate::winner::{after_scoring, left_points, right_points, score_all, scored_board};
use crate::input::AxisValue;
use crate::world::{ticked, WorldView};

verus! {

/// A ball resting on the bottom wall while moving down leaves it moving up at the same
/// speed; one resting on the top wall while moving up leaves it moving down at the same
/// speed. Collision never moves the ball.
pub proof fn wall_bounce_symmetry(ball: Ball, arena_height: int, paddles: Seq<Paddle>)
    requires
        ball.wf(),
    ensures
        ball.position.y == ball.radius && ball.velocity.y < 0 ==> bounced(ball, arena_height, paddles).velocity.y
            == -ball.velocity.y,
        ball.position.y == arena_height - ball.radius && ball.velocity.y > 0 ==> bounced(
            ball,
            arena_height,
            paddles,
        ).velocity.y == -ball.velocity.y,
        bounced(ball, arena_height, paddles).position == ball.position,
        bounced(ball, arena_height, paddles).radius == ball.radius,
{
    lemma_bounced_wf(ball, arena_height, paddles);
}

/// Whether the ball is within reach of a paddle on `side`.
pub open spec fn reaches_side(ball: Ball, paddles: Seq<Paddle>, side: Side) -> bool {
    exists|i: int| 0 <= i < paddles.len() && in_reach(ball, #[trigger] paddles[i]) && paddles[i].side == side
}

/// With no paddle test heading toward its paddle, the horizontal velocity is kept.
proof fn lemma_no_paddle_flip(ball: Ball, paddles: Seq<Paddle>)
    requires
        forall|i: int|
            0 <= i < paddles.len() && in_reach(ball, #[trigger] paddles[i]) ==> !heads_toward(
                paddles[i].side,
                ball.velocity.x as int,
            ),
    ensures
        vx_after(ball, paddles) == ball.velocity.x,
    decreases paddles.len(),
{
    if paddles.len() > 0 {
        let rest = paddles.drop_last();
        assert forall|i: int|
            0 <= i < rest.len() && in_reach(ball, #[trigger] rest[i]) implies !heads_toward(
            rest[i].side,
            ball.velocity.x as int,
        ) by {
            assert(rest[i] == paddles[i]);
        }
        lemma_no_paddle_flip(ball, rest);
        assert(paddles.last() == paddles[paddles.len() - 1]);
    }
}

/// When every paddle in reach stands on `side` and one does, the ball leaves the pass
/// heading away from `side`.
proof fn lemma_one_side_away(ball: Ball, paddles: Seq<Paddle>, side: Side)
    requires
        forall|i: int| 0 <= i < paddles.len() && in_reach(ball, #[trigger] paddles[i]) ==> paddles[i].side == side,
        reaches_side(ball, paddles, side),
    ensures
        !heads_toward(side, vx_after(ball, paddles)),
    decreases paddles.len(),
{
    let n = paddles.len() - 1;
    let rest = paddles.drop_last();
    assert(paddles.last() == paddles[n]);
    if !in_reach(ball, paddles[n]) {
        let i = choose|i: int| 0 <= i < paddles.len() && in_reach(ball, #[trigger] paddles[i]) && paddles[i].side == side;
        assert(i < n);
        assert(rest[i] == paddles[i]);
        assert forall|j: int| 0 <= j < rest.len() && in_reach(ball, #[trigger] rest[j]) implies rest[j].side == side by {
            assert(rest[j] == paddles[j]);
        }
        lemma_one_side_away(ball, rest, side);
    }
}

/// A second collision pass with no motion in between changes no velocity, unless the
/// ball touches both walls at once or is in reach of paddles on both sides.
pub proof fn no_double_bounce(ball: Ball, arena_height: int, paddles: Seq<Paddle>)
    requires
        ball.wf(),
        !(ball.position.y <= ball.radius && ball.position.y >= arena_height - ball.radius),
        !(reaches_side(ball, paddles, Side::Left) && reaches_side(ball, paddles, Side::Right)),
    ensures
        bounced(bounced(ball, arena_height, paddles), arena_height, paddles).velocity == bounced(
            ball,
            arena_height,
            paddles,
        ).velocity,
{
    let once = bounced(ball, arena_height, paddles);
    lemma_bounced_wf(ball, arena_height, paddles);
    lemma_bounced_wf(once, arena_height, paddles);
    assert(wall_vy(once, arena_height) == wall_vy(ball, arena_height));
    assert forall|i: int| 0 <= i < paddles.len() implies in_reach(once, #[trigger] paddles[i]) == in_reach(
        ball,
        paddles[i],
    ) by {}
    if reaches_side(ball, paddles, Side::Left) || reaches_side(ball, paddles, Side::Right) {
        let side = if reaches_side(ball, paddles, Side::Left) {
            Side::Left
        } else {
            Side::Right
        };
        assert forall|i: int| 0 <= i < paddles.len() && in_reach(ball, #[trigger] paddles[i]) implies paddles[i].side
            == side by {
            if paddles[i].side != side {
                assert(reaches_side(ball, paddles, paddles[i].side));
            }
        }
        lemma_one_side_away(ball, paddles, side);
    } else {
        lemma_no_paddle_flip(ball, paddles);
    }
    lemma_no_paddle_flip(once, paddles);
}

/// Wherever a paddle is and however far it is moved, its centre ends within
/// `[paddle_height / 2, arena_height - paddle_height / 2]` (both sides doubled), as long
/// as the arena holds the paddle.
pub proof fn paddle_clamp(arena_height: int, paddle_height: int, movement: int, current_y: int)
    requires
        paddle_fits(arena_height, paddle_height),
    ensures
        paddle_height <= 2 * clamped_y(arena_height, paddle_height, movement, current_y),
        2 * clamped_y(arena_height, paddle_height, movement, current_y) <= 2 * arena_height - paddle_height,
{
}

/// A ball at the left edge scores exactly one point for the right player (none past
/// the maximum), leaves the left score alone, reverses its horizontal velocity and is
/// put back on the middle line at the same height.
pub proof fn scoring_reset(ball: Ball, board: ScoreBoard, arena_width: int)
    requires
        board.wf(),
        ball.position.x <= ball.radius,
        ball.velocity.x > i64::MIN,
        0 <= arena_width <= i64::MAX,
    ensures
        scored_board(board, seq![ball], arena_width).score_right == if board.score_right < MAX_SCORE {
            board.score_right + 1
        } else {
            MAX_SCORE as int
        },
        scored_board(board, seq![ball], arena_width).score_left == board.score_left,
        score_all(seq![ball], arena_width)[0].velocity.x == -ball.velocity.x,
        score_all(seq![ball], arena_width)[0].position.x == arena_width / 2,
        score_all(seq![ball], arena_width)[0].position.y == ball.position.y,
{
    let balls = seq![ball];
    assert(balls.drop_last() == Seq::<Ball>::empty());
    assert(balls.last() == ball);
    assert(right_points(balls.drop_last()) == 0);
    assert(left_points(balls.drop_last(), arena_width) == 0);
    assert(right_points(balls) == 1);
    assert(left_points(balls, arena_width) == 0);
    assert(score_all(balls, arena_width)[0] == after_scoring(ball, arena_width));
}

/// The scoreboard after scoring passes over the balls of each round in turn.
pub open spec fn board_after_rounds(board: ScoreBoard, rounds: Seq<Seq<Ball>>, arena_width: int) -> ScoreBoard
    decreases rounds.len(),
{
    if rounds.len() == 0 {
        board
    } else {
        scored_board(board_after_rounds(board, rounds.drop_last(), arena_width), rounds.last(), arena_width)
    }
}

/// However many scoring passes run, over whatever balls, neither score leaves
/// `[0, MAX_SCORE]` when it started there, and neither score goes down.
pub proof fn score_cap(board: ScoreBoard, rounds: Seq<Seq<Ball>>, arena_width: int)
    requires
        board.wf(),
    ensures
        board_after_rounds(board, rounds, arena_width).wf(),
        board_after_rounds(board, rounds, arena_width).score_left >= board.score_left,
        board_after_rounds(board, rounds, arena_width).score_right >= board.score_right,
    decreases rounds.len(),
{
    if rounds.len() > 0 {
        score_cap(board, rounds.drop_last(), arena_width);
    }
}

/// The clamped height of a paddle fits the coordinate type.
proof fn lemma_clamped_fits(arena_height: i64, paddle_height: i64, movement: int, current_y: int)
    requires
        paddle_height >= 0,
    ensures
        i64::MIN <= clamped_y(arena_height as int, paddle_height as int, movement, current_y) <= i64::MAX,
{
}

/// Two commands for player one in one frame leave the paddle where moving it by the
/// first and then by the second leaves it: each is clamped in turn.
pub proof fn command_ordering(
    paddles: Seq<Paddle>,
    players: Players,
    arena_height: i64,
    paddle_height: i64,
    d1: i32,
    d2: i32,
)
    requires
        players.p1 < paddles.len(),
        paddle_height >= 0,
    ensures
        paddles_after(
            paddles,
            players,
            arena_height as int,
            paddle_height as int,
            seq![Command::MovePaddle(Player::P1, d1), Command::MovePaddle(Player::P1, d2)],
        ) == Ok::<Seq<Paddle>, GameError>(paddles.update(
            players.p1 as int,
            at_height(
                paddles[players.p1 as int],
                clamped_y(
                    arena_height as int,
                    paddle_height as int,
                    d2 as int,
                    clamped_y(arena_height as int, paddle_height as int, d1 as int, paddles[players.p1 as int].position.y as int),
                ),
            ),
        )),
{
    let i = players.p1 as int;
    let (h, ph) = (arena_height as int, paddle_height as int);
    let commands = seq![Command::MovePaddle(Player::P1, d1), Command::MovePaddle(Player::P1, d2)];
    let first = commands.drop_last();
    assert(first.drop_last() == Seq::<Command>::empty());
    assert(first.last() == Command::MovePaddle(Player::P1, d1));
    assert(commands.last() == Command::MovePaddle(Player::P1, d2));
    let y1 = clamped_y(h, ph, d1 as int, paddles[i].position.y as int);
    lemma_clamped_fits(arena_height, paddle_height, d1 as int, paddles[i].position.y as int);
    let once = paddles.update(i, at_height(paddles[i], y1));
    assert(paddles_after(paddles, players, h, ph, first.drop_last()) == Ok::<Seq<Paddle>, GameError>(paddles));
    assert(paddles_after(paddles, players, h, ph, first) == Ok::<Seq<Paddle>, GameError>(once));
    assert(once[i].position.y == y1);
    let y2 = clamped_y(h, ph, d2 as int, y1);
    assert(once.update(i, at_height(once[i], y2)) == paddles.update(i, at_height(paddles[i], y2)));
}

/// Applying the commands `first + second` is applying `first`, then `second` to what
/// came out: commands act one at a time in write order, never merged.
pub proof fn commands_compose(
    paddles: Seq<Paddle>,
    players: Players,
    arena_height: int,
    paddle_height: int,
    first: Seq<Command>,
    second: Seq<Command>,
)
    ensures
        paddles_after(paddles, players, arena_height, paddle_height, first + second) == match paddles_after(
            paddles,
            players,
            arena_height,
            paddle_height,
            first,
        ) {
            Ok(ps) => paddles_after(ps, players, arena_height, paddle_height, second),
            Err(e) => Err(e),
        },
    decreases second.len(),
{
    if second.len() == 0 {
        assert(first + second == first);
    } else {
        commands_compose(paddles, players, arena_height, paddle_height, first, second.drop_last());
        assert((first + second).drop_last() == first + second.drop_last());
        assert((first + second).last() == second.last());
    }
}

/// The player a command is for.
pub open spec fn command_player(command: Command) -> Player {
    match command {
        Command::MovePaddle(player, _) => player,
    }
}

/// After a frame's commands, every paddle that a command moved has its centre within
/// `[paddle_height / 2, arena_height - paddle_height / 2]` (both sides doubled), as long
/// as the arena holds the paddle.
pub proof fn commanded_paddles_clamped(
    paddles: Seq<Paddle>,
    players: Players,
    arena_height: i64,
    paddle_height: i64,
    commands: Seq<Command>,
    k: int,
)
    requires
        paddle_fits(arena_height as int, paddle_height as int),
        0 <= k < commands.len(),
        paddles_after(paddles, players, arena_height as int, paddle_height as int, commands) is Ok,
    ensures
        ({
            let out = paddles_after(paddles, players, arena_height as int, paddle_height as int, commands)->Ok_0;
            let i = paddle_index(players, command_player(commands[k])) as int;
            &&& 0 <= i < out.len()
            &&& paddle_height <= 2 * out[i].position.y
            &&& 2 * out[i].position.y <= 2 * arena_height - paddle_height
        }),
    decreases commands.len(),
{
    let (h, ph) = (arena_height as int, paddle_height as int);
    let rest = commands.drop_last();
    let last = commands.last();
    let prev = paddles_after(paddles, players, h, ph, rest);
    assert(prev is Ok);
    let ps = prev->Ok_0;
    let out = paddles_after(paddles, players, h, ph, commands)->Ok_0;
    assert(paddle_step(ps, players, h, ph, last) == Ok::<Seq<Paddle>, GameError>(out));
    let j = paddle_index(players, command_player(last)) as int;
    let i = paddle_index(players, command_player(commands[k])) as int;
    match last {
        Command::MovePaddle(player, movement) => {
            let y = clamped_y(h, ph, movement as int, ps[j].position.y as int);
            lemma_clamped_fits(arena_height, paddle_height, movement as int, ps[j].position.y as int);
            paddle_clamp(h, ph, movement as int, ps[j].position.y as int);
            assert(out[j].position.y == y);
        },
    }
    if i != j {
        assert(k < commands.len() - 1);
        assert(rest[k] == commands[k]);
        commanded_paddles_clamped(paddles, players, arena_height, paddle_height, rest, k);
        assert(out[i] == ps[i]);
    }
}

/// The session after the frames `frames` (axis samples and elapsed milliseconds), all
/// in state `state`; the first error ends the run.
pub open spec fn after_frames(v: WorldView, state: GameState, frames: Seq<(Seq<AxisValue>, int)>) -> Result<
    WorldView,
    GameError,
>
    decreases frames.len(),
{
    if frames.len() == 0 {
        Ok(v)
    } else {
        match after_frames(v, state, frames.drop_last()) {
            Ok(w) => ticked(w, state, frames.last().0, frames.last().1),
            Err(e) => Err(e),
        }
    }
}

/// While the game is paused, any number of frames leave the balls, the paddles, the
/// scoreboard and everything else in the session as they were.
pub proof fn pause_gating(v: WorldView, frames: Seq<(Seq<AxisValue>, int)>)
    ensures
        after_frames(v, GameState::Paused, frames) == Ok::<WorldView, GameError>(v),
    decreases frames.len(),
{
    if frames.len() > 0 {
        pause_gating(v, frames.drop_last());
    }
}

} // verus!
