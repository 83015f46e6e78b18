//! Paddle motion: queued commands move the paddles vertically, clamped to the arena.

use vstd::prelude::*;
use crate::commands::{unread, Command, CommandChannel, ReaderId};
use crate::components::{Ball, Paddle, Side, Vec2};
use crate::config::{ArenaConfig, PaddleConfig, ARENA_HEIGHT, PADDLE_HEIGHT};
use crate::resources::{GameError, Player, Players};

verus! {

/// Coordinate units a paddle moves per thousandth of an axis sample: a full sample
/// moves it 1.2 world units.
pub const SPEED_SCALE: i64 = 12;

/// An axis sample of full strength, in thousandths.
pub const FULL_AXIS: i32 = 1000;

/// The lowest centre height of a paddle of height `paddle_height`: half its height,
/// rounded up to a whole unit.
pub open spec fn lowest_centre(paddle_height: int) -> int {
    (paddle_height + 1) / 2
}

/// The highest centre height: the arena height less half the paddle height, rounded
/// down to a whole unit.
pub open spec fn highest_centre(arena_height: int, paddle_height: int) -> int {
    arena_height - lowest_centre(paddle_height)
}

/// The arena holds at least one whole-unit centre height for the paddle.
pub open spec fn paddle_fits(arena_height: int, paddle_height: int) -> bool {
    0 <= paddle_height && lowest_centre(paddle_height) <= highest_centre(arena_height, paddle_height)
}

/// The new centre height: `current_y + SPEED_SCALE * movement`, first held under the
/// highest centre, then over the lowest.
pub open spec fn clamped_y(arena_height: int, paddle_height: int, movement: int, current_y: int) -> int {
    let moved = current_y + SPEED_SCALE * movement;
    let under = if moved <= highest_centre(arena_height, paddle_height) {
        moved
    } else {
        highest_centre(arena_height, paddle_height)
    };
    if under >= lowest_centre(paddle_height) {
        under
    } else {
        lowest_centre(paddle_height)
    }
}

/// Computes the new centre height of a paddle moved by an axis sample of `movement`
/// thousandths.
pub fn calculate_y(arena_height: i64, paddle_height: i64, movement: i32, current_y: i64) -> (r: i64)
    requires
        paddle_height >= 0,
    ensures
        r == clamped_y(arena_height as int, paddle_height as int, movement as int, current_y as int),
{
    let lowest: i128 = (paddle_height as i128 + 1) / 2;
    let highest: i128 = arena_height as i128 - lowest;
    assert(-0x1_0000_0000_0000 <= SPEED_SCALE * movement <= 0x1_0000_0000_0000) by (nonlinear_arith)
        requires
            i32::MIN <= movement <= i32::MAX,
            SPEED_SCALE == 12,
    ;
    let moved: i128 = current_y as i128 + SPEED_SCALE as i128 * movement as i128;
    let under: i128 = if moved <= highest {
        moved
    } else {
        highest
    };
    let y: i128 = if under >= lowest {
        under
    } else {
        lowest
    };
    y as i64
}

/// The index of a player's paddle.
pub open spec fn paddle_index(players: Players, player: Player) -> usize {
    match player {
        Player::P1 => players.p1,
        Player::P2 => players.p2,
    }
}

/// `paddle` with its centre moved to height `y`.
pub open spec fn at_height(paddle: Paddle, y: int) -> Paddle {
    Paddle { position: Vec2 { y: y as i64, ..paddle.position }, ..paddle }
}

/// The paddles after one command, or the player whose paddle is missing.
pub open spec fn paddle_step(
    paddles: Seq<Paddle>,
    players: Players,
    arena_height: int,
    paddle_height: int,
    command: Command,
) -> Result<Seq<Paddle>, GameError> {
    match command {
        Command::MovePaddle(player, movement) => {
            let i = paddle_index(players, player) as int;
            if i < paddles.len() {
                Ok(paddles.update(i, at_height(
                    paddles[i],
                    clamped_y(arena_height, paddle_height, movement as int, paddles[i].position.y as int),
                )))
            } else {
                Err(GameError::MissingPaddle(player))
            }
        },
    }
}

/// The paddles after the commands `commands`, one at a time in order; the first
/// missing paddle ends the run.
pub open spec fn paddles_after(
    paddles: Seq<Paddle>,
    players: Players,
    arena_height: int,
    paddle_height: int,
    commands: Seq<Command>,
) -> Result<Seq<Paddle>, GameError>
    decreases commands.len(),
{
    if commands.len() == 0 {
        Ok(paddles)
    } else {
        match paddles_after(paddles, players, arena_height, paddle_height, commands.drop_last()) {
            Ok(ps) => paddle_step(ps, players, arena_height, paddle_height, commands.last()),
            Err(e) => Err(e),
        }
    }
}

/// Once a command meets a missing paddle, later commands keep that outcome.
proof fn lemma_error_persists(
    paddles: Seq<Paddle>,
    players: Players,
    arena_height: int,
    paddle_height: int,
    commands: Seq<Command>,
    n: int,
    e: GameError,
)
    requires
        0 <= n <= commands.len(),
        paddles_after(paddles, players, arena_height, paddle_height, commands.take(n)) == Err::<Seq<Paddle>, GameError>(e),
    ensures
        paddles_after(paddles, players, arena_height, paddle_height, commands) == Err::<Seq<Paddle>, GameError>(e),
    decreases commands.len() - n,
{
    if n < commands.len() {
        assert(commands.take(n + 1).drop_last() == commands.take(n));
        lemma_error_persists(paddles, players, arena_height, paddle_height, commands, n + 1, e);
    } else {
        assert(commands.take(n) == commands);
    }
}

/// Whether `r` and the paddles `ps` agree with the outcome `expected`.
pub open spec fn agrees(r: Result<(), GameError>, ps: Seq<Paddle>, expected: Result<Seq<Paddle>, GameError>) -> bool {
    match expected {
        Ok(e) => r is Ok && ps == e,
        Err(e) => r == Err::<(), GameError>(e),
    }
}

/// Applies `commands` in order to the paddles.
pub fn apply_commands(
    paddles: &mut Vec<Paddle>,
    players: Players,
    arena_height: i64,
    paddle_height: i64,
    commands: &Vec<Command>,
) -> (r: Result<(), GameError>)
    requires
        paddle_height >= 0,
    ensures
        agrees(
            r,
            final(paddles)@,
            paddles_after(old(paddles)@, players, arena_height as int, paddle_height as int, commands@),
        ),
{
    let ghost start = paddles@;
    let mut i: usize = 0;
    while i < commands.len()
        invariant
            0 <= i <= commands@.len(),
            paddle_height >= 0,
            start == old(paddles)@,
            paddles_after(start, players, arena_height as int, paddle_height as int, commands@.take(i as int))
                == Ok::<Seq<Paddle>, GameError>(paddles@),
        decreases commands@.len() - i,
    {
        proof {
            assert(commands@.take(i + 1).drop_last() == commands@.take(i as int));
            assert(commands@.take(i + 1).last() == commands@[i as int]);
        }
        match commands[i] {
            Command::MovePaddle(player, movement) => {
                let index: usize = match player {
                    Player::P1 => players.p1,
                    Player::P2 => players.p2,
                };
                if index >= paddles.len() {
                    proof {
                        assert(paddle_step(paddles@, players, arena_height as int, paddle_height as int, commands@[i as int])
                            == Err::<Seq<Paddle>, GameError>(GameError::MissingPaddle(player)));
                        lemma_error_persists(
                            start,
                            players,
                            arena_height as int,
                            paddle_height as int,
                            commands@,
                            i + 1,
                            GameError::MissingPaddle(player),
                        );
                    }
                    return Err(GameError::MissingPaddle(player));
                }
                let mut paddle = paddles[index];
                paddle.position.y = calculate_y(arena_height, paddle_height, movement, paddle.position.y);
                paddles.set(index, paddle);
            },
        }
        i = i + 1;
    }
    proof {
        assert(commands@.take(commands@.len() as int) == commands@);
    }
    Ok(())
}

/// The paddle motion pass, reading the command channel with its own reader.
pub struct MovePaddlesSystem {
    pub command_reader: ReaderId,
}

impl MovePaddlesSystem {
    /// A pass that sees the commands written to `channel` from now on.
    pub fn setup(channel: &CommandChannel) -> (r: MovePaddlesSystem)
        ensures
            r.command_reader.frame == channel@.frame,
            r.command_reader.cursor == channel@.events.len(),
    {
        MovePaddlesSystem { command_reader: channel.register_reader() }
    }

    /// Applies the commands not read yet, in order, to the paddles.
    pub fn run(
        &mut self,
        channel: &CommandChannel,
        arena: &ArenaConfig,
        paddle: &PaddleConfig,
        players: Players,
        paddles: &mut Vec<Paddle>,
    ) -> (r: Result<(), GameError>)
        requires
            paddle.wf(),
        ensures
            final(self).command_reader == (ReaderId {
                frame: channel@.frame,
                cursor: channel@.events.len() as usize,
            }),
            agrees(
                r,
                final(paddles)@,
                paddles_after(
                    old(paddles)@,
                    players,
                    arena.height as int,
                    paddle.height as int,
                    unread(channel@, old(self).command_reader),
                ),
            ),
    {
        let commands = channel.read(&mut self.command_reader);
        apply_commands(paddles, players, arena.height, paddle.height, &commands)
    }
}

/// The paddle motion pass for an arena and paddles of the default sizes.
pub struct MovePaddles {
    pub command_reader: ReaderId,
}

impl MovePaddles {
    /// A pass that sees the commands written to `channel` from now on.
    pub fn setup(channel: &CommandChannel) -> (r: MovePaddles)
        ensures
            r.command_reader.frame == channel@.frame,
            r.command_reader.cursor == channel@.events.len(),
    {
        MovePaddles { command_reader: channel.register_reader() }
    }

    /// Applies the commands not read yet, in order, with `ARENA_HEIGHT` and `PADDLE_HEIGHT`.
    pub fn run(&mut self, channel: &CommandChannel, players: Players, paddles: &mut Vec<Paddle>) -> (r: Result<(), GameError>)
        ensures
            final(self).command_reader == (ReaderId {
                frame: channel@.frame,
                cursor: channel@.events.len() as usize,
            }),
            agrees(
                r,
                final(paddles)@,
                paddles_after(
                    old(paddles)@,
                    players,
                    ARENA_HEIGHT as int,
                    PADDLE_HEIGHT as int,
                    unread(channel@, old(self).command_reader),
                ),
            ),
    {
        let commands = channel.read(&mut self.command_reader);
        apply_commands(paddles, players, ARENA_HEIGHT, PADDLE_HEIGHT, &commands)
    }
}

/// The reflex policy's axis sample: full strength toward the ball's height, nothing
/// when level with it.
pub open spec fn reflex_movement(ball_y: int, paddle_y: int) -> int {
    if ball_y > paddle_y {
        FULL_AXIS as int
    } else if ball_y < paddle_y {
        -FULL_AXIS
    } else {
        0
    }
}

/// The computer-controlled paddle pass: player two's paddle follows the first ball.
pub struct MovePaddleSystem;

impl MovePaddleSystem {
    /// Moves player two's paddle one full-strength step toward the first ball's height.
    pub fn run(
        &self,
        arena: &ArenaConfig,
        paddle: &PaddleConfig,
        players: Players,
        balls: &Vec<Ball>,
        paddles: &mut Vec<Paddle>,
    ) -> (r: Result<(), GameError>)
        requires
            paddle.wf(),
        ensures
            balls@.len() == 0 ==> r == Err::<(), GameError>(GameError::MissingBall) && final(paddles)@ == old(paddles)@,
            balls@.len() > 0 && players.p2 >= old(paddles)@.len() ==> r == Err::<(), GameError>(
                GameError::MissingPaddle(Player::P2),
            ) && final(paddles)@ == old(paddles)@,
            balls@.len() > 0 && players.p2 < old(paddles)@.len() ==> r is Ok && final(paddles)@ == old(paddles)@.update(
                players.p2 as int,
                at_height(
                    old(paddles)@[players.p2 as int],
                    clamped_y(
                        arena.height as int,
                        paddle.height as int,
                        reflex_movement(balls@[0].position.y as int, old(paddles)@[players.p2 as int].position.y as int),
                        old(paddles)@[players.p2 as int].position.y as int,
                    ),
                ),
            ),
    {
        if balls.len() == 0 {
            return Err(GameError::MissingBall);
        }
        let ball_y = balls[0].position.y;
        if players.p2 >= paddles.len() {
            return Err(GameError::MissingPaddle(Player::P2));
        }
        let mut moving = paddles[players.p2];
        let paddle_y = moving.position.y;
        let movement: i32 = if ball_y > paddle_y {
            FULL_AXIS
        } else if ball_y < paddle_y {
            -FULL_AXIS
        } else {
            0
        };
        moving.position.y = calculate_y(arena.height, paddle.height, movement, paddle_y);
        paddles.set(players.p2, moving);
        Ok(())
    }
}

/// The axis sample that moves a paddle on `side`.
pub open spec fn side_movement(side: Side, left: Option<i32>, right: Option<i32>) -> Option<i32> {
    match side {
        Side::Left => left,
        Side::Right => right,
    }
}

/// A paddle after the direct input pass: moved by the sample of its side, if any.
pub open spec fn steered(paddle: Paddle, left: Option<i32>, right: Option<i32>) -> Paddle {
    match side_movement(paddle.side, left, right) {
        Some(m) => at_height(
            paddle,
            clamped_y(ARENA_HEIGHT as int, PADDLE_HEIGHT as int, m as int, paddle.position.y as int),
        ),
        None => paddle,
    }
}

/// The direct input pass: each paddle follows the axis of its side, with no command
/// channel in between, on an arena and paddles of the default sizes.
pub struct PaddleSystem;

impl PaddleSystem {
    /// Moves every paddle by the sample of its side's axis (`left` for the left side,
    /// `right` for the right side); a missing sample leaves it in place.
    pub fn run(&self, paddles: &mut Vec<Paddle>, left: Option<i32>, right: Option<i32>)
        ensures
            final(paddles)@ == Seq::new(old(paddles)@.len(), |i: int| steered(old(paddles)@[i], left, right)),
    {
        let ghost start = paddles@;
        let mut i: usize = 0;
        while i < paddles.len()
            invariant
                0 <= i <= paddles@.len(),
                paddles@.len() == start.len(),
                forall|j: int| 0 <= j < i ==> #[trigger] paddles@[j] == steered(start[j], left, right),
                forall|j: int| i <= j < paddles@.len() ==> #[trigger] paddles@[j] == start[j],
            decreases paddles@.len() - i,
        {
            let mut paddle = paddles[i];
            let movement = match paddle.side {
                Side::Left => left,
                Side::Right => right,
            };
            if let Some(amount) = movement {
                paddle.position.y = calculate_y(ARENA_HEIGHT, PADDLE_HEIGHT, amount, paddle.position.y);
            }
            paddles.set(i, paddle);
            i = i + 1;
        }
        assert(paddles@ == Seq::new(start.len(), |i: int| steered(start[i], left, right)));
    }
}

} // verus!
