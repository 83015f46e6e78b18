//! The session: every piece of state the pipeline reads and writes, and the frame
//! tick that runs the pipeline while the game is playing.

use vstd::prelude::*;
use crate::balls::{all_motion_fits, balls_can_move, move_all, MoveBallsSystem};
use crate::bounce::{all_balls_wf, bounce_all, BounceSystem};
use crate::commands::{next_frame, unread, ChannelView, Command, CommandChannel, ReaderId};
use crate::components::{Ball, Paddle, Side, Vec2};
use crate::config::{ArenaConfig, GameConfig, PaddleConfig};
use crate::input::{emitted, AxisValue, PlayerInput};
use crate::paddles::{paddles_after, MovePaddlesSystem};
use crate::resources::{decimal, GameError, Players, PlayersActive, ScoreBoard, ScoreText};
use crate::states::GameState;
use crate::winner::{left_points, right_points, score_all, scored_board, scored_text, WinnerSystem};

verus! {

/// Everything a session holds.
pub struct World {
    pub arena: ArenaConfig,
    pub paddle_config: PaddleConfig,
    pub balls: Vec<Ball>,
    pub paddles: Vec<Paddle>,
    pub players: Players,
    pub players_active: PlayersActive,
    pub score_board: ScoreBoard,
    pub score_text: ScoreText,
    pub commands: CommandChannel,
    pub paddle_motion: MovePaddlesSystem,
}

/// What a session holds, as values.
pub struct WorldView {
    pub arena: ArenaConfig,
    pub paddle_config: PaddleConfig,
    pub balls: Seq<Ball>,
    pub paddles: Seq<Paddle>,
    pub players: Players,
    pub players_active: PlayersActive,
    pub score_board: ScoreBoard,
    pub p1_text: Seq<char>,
    pub p2_text: Seq<char>,
    pub frame: u64,
    pub events: Seq<Command>,
    pub reader: ReaderId,
}

impl View for World {
    type V = WorldView;

    open spec fn view(&self) -> WorldView {
        WorldView {
            arena: self.arena,
            paddle_config: self.paddle_config,
            balls: self.balls@,
            paddles: self.paddles@,
            players: self.players,
            players_active: self.players_active,
            score_board: self.score_board,
            p1_text: self.score_text.p1_score@,
            p2_text: self.score_text.p2_score@,
            frame: self.commands@.frame,
            events: self.commands@.events,
            reader: self.paddle_motion.command_reader,
        }
    }
}

impl WorldView {
    /// The arena and paddle sizes are valid and every ball is well formed.
    pub open spec fn wf(self) -> bool {
        &&& self.arena.wf()
        &&& self.paddle_config.wf()
        &&& all_balls_wf(self.balls)
    }
}

/// The session after one frame of the pipeline, with the axis samples `axes` and `dt`
/// milliseconds elapsed: input translation, paddle motion, ball motion, collision,
/// scoring, then the end of the command frame. A missing paddle is an error.
pub open spec fn stepped(v: WorldView, axes: Seq<AxisValue>, dt: int) -> Result<WorldView, GameError> {
    let events = v.events + emitted(axes, v.players_active);
    let commands = unread(ChannelView { frame: v.frame, events }, v.reader);
    match paddles_after(v.paddles, v.players, v.arena.height as int, v.paddle_config.height as int, commands) {
        Err(e) => Err(e),
        Ok(paddles) => {
            let bounced = bounce_all(move_all(v.balls, dt), v.arena.height as int, paddles);
            let board = scored_board(v.score_board, bounced, v.arena.width as int);
            Ok(WorldView {
                balls: score_all(bounced, v.arena.width as int),
                paddles,
                score_board: board,
                p1_text: scored_text(v.p1_text, left_points(bounced, v.arena.width as int), board.score_left as int),
                p2_text: scored_text(v.p2_text, right_points(bounced), board.score_right as int),
                frame: next_frame(v.frame),
                events: Seq::empty(),
                reader: ReaderId { frame: v.frame, cursor: events.len() as usize },
                ..v
            })
        },
    }
}

/// The session after one frame in state `state`: the pipeline runs only while playing.
pub open spec fn ticked(v: WorldView, state: GameState, axes: Seq<AxisValue>, dt: int) -> Result<WorldView, GameError> {
    if state == GameState::Playing {
        stepped(v, axes, dt)
    } else {
        Ok(v)
    }
}

/// Whether `r` and the session `w` agree with the outcome `expected`.
pub open spec fn tick_agrees(r: Result<(), GameError>, w: WorldView, expected: Result<WorldView, GameError>) -> bool {
    match expected {
        Ok(e) => r is Ok && w == e,
        Err(e) => r == Err::<(), GameError>(e),
    }
}

/// Scoring keeps every ball well formed.
proof fn lemma_score_all_wf(balls: Seq<Ball>, arena_width: int)
    requires
        all_balls_wf(balls),
        arena_width >= 0,
    ensures
        all_balls_wf(score_all(balls, arena_width)),
{
    assert forall|i: int| 0 <= i < score_all(balls, arena_width).len() implies #[trigger] score_all(
        balls,
        arena_width,
    )[i].wf() by {
        assert(balls[i].wf());
    }
}

/// Ball motion keeps every ball well formed.
proof fn lemma_move_all_wf(balls: Seq<Ball>, dt: int)
    requires
        all_balls_wf(balls),
    ensures
        all_balls_wf(move_all(balls, dt)),
{
    assert forall|i: int| 0 <= i < move_all(balls, dt).len() implies #[trigger] move_all(balls, dt)[i].wf() by {
        assert(balls[i].wf());
    }
}

/// Whether the configuration describes a playable session: a valid arena and paddle
/// size, a ball radius that is not negative and a velocity that can be reversed.
pub open spec fn config_wf(config: GameConfig) -> bool {
    &&& config.arena.wf()
    &&& config.paddle.wf()
    &&& config.ball.radius >= 0
    &&& config.ball.velocity.x > i64::MIN
    &&& config.ball.velocity.y > i64::MIN
}

/// Whether `config` describes a playable session, as `World::new` requires.
pub fn config_is_playable(config: &GameConfig) -> (r: bool)
    ensures
        r == config_wf(*config),
{
    config.arena.height > 0 && config.arena.width > 0 && config.paddle.height >= 0 && config.paddle.width >= 0
        && config.ball.radius >= 0 && config.ball.velocity.x > i64::MIN && config.ball.velocity.y > i64::MIN
}

/// The paddle of `side` at the start of a session: at mid height, against its wall.
pub open spec fn starting_paddle(config: GameConfig, side: Side) -> Paddle {
    Paddle {
        side,
        width: config.paddle.width,
        height: config.paddle.height,
        position: Vec2 {
            x: match side {
                Side::Left => config.paddle.width / 2,
                Side::Right => config.arena.width - config.paddle.width / 2,
            } as i64,
            y: (config.arena.height / 2) as i64,
        },
    }
}

/// The ball at the start of a session: in the middle of the arena.
pub open spec fn starting_ball(config: GameConfig) -> Ball {
    Ball {
        position: Vec2 { x: (config.arena.width / 2) as i64, y: (config.arena.height / 2) as i64 },
        velocity: config.ball.velocity,
        radius: config.ball.radius,
    }
}

impl World {
    /// A new session: the left paddle is player one's and the right paddle player
    /// two's, the ball starts in the middle, the scores at zero, and paddle motion
    /// reads the command channel from its start.
    pub fn new(config: &GameConfig, players_active: PlayersActive) -> (r: World)
        requires
            config_wf(*config),
        ensures
            r@.wf(),
            r@.arena == config.arena,
            r@.paddle_config == config.paddle,
            r@.balls == seq![starting_ball(*config)],
            r@.paddles == seq![starting_paddle(*config, Side::Left), starting_paddle(*config, Side::Right)],
            r@.players == (Players { p1: 0, p2: 1 }),
            r@.players_active == players_active,
            r@.score_board == (ScoreBoard { score_left: 0, score_right: 0 }),
            r@.p1_text == decimal(0),
            r@.p2_text == decimal(0),
            r@.frame == 0,
            r@.events == Seq::<Command>::empty(),
            r@.reader == (ReaderId { frame: 0, cursor: 0 }),
    {
        let arena = config.arena;
        let paddle = config.paddle;
        let mid_y: i64 = arena.height / 2;
        let left = Paddle {
            side: Side::Left,
            width: paddle.width,
            height: paddle.height,
            position: Vec2 { x: paddle.width / 2, y: mid_y },
        };
        let right = Paddle {
            side: Side::Right,
            width: paddle.width,
            height: paddle.height,
            position: Vec2 { x: arena.width - paddle.width / 2, y: mid_y },
        };
        let mut paddles: Vec<Paddle> = Vec::new();
        paddles.push(left);
        paddles.push(right);
        let mut balls: Vec<Ball> = Vec::new();
        balls.push(Ball {
            position: Vec2 { x: arena.width / 2, y: mid_y },
            velocity: config.ball.velocity,
            radius: config.ball.radius,
        });
        let commands = CommandChannel::new();
        let paddle_motion = MovePaddlesSystem::setup(&commands);
        let world = World {
            arena,
            paddle_config: paddle,
            balls,
            paddles,
            players: Players { p1: 0, p2: 1 },
            players_active,
            score_board: ScoreBoard::new(),
            score_text: ScoreText::new(),
            commands,
            paddle_motion,
        };
        assert(world@.balls == seq![starting_ball(*config)]);
        assert(world@.paddles == seq![starting_paddle(*config, Side::Left), starting_paddle(*config, Side::Right)]);
        world
    }

    /// Whether every ball can move by `dt` milliseconds within the coordinate type,
    /// as a tick while playing requires.
    pub fn can_move_balls(&self, dt: u32) -> (r: bool)
        ensures
            r == all_motion_fits(self@.balls, dt as int),
    {
        balls_can_move(&self.balls, dt)
    }
}

/// The systems of a running game, dispatched in their dependency order.
pub struct GameSystemsBundle;

impl GameSystemsBundle {
    /// One frame of the pipeline: input translation, then paddle motion; ball motion;
    /// collision after both motions; scoring after ball motion; then the command frame ends.
    pub fn dispatch(&self, world: &mut World, axes: &Vec<AxisValue>, dt: u32) -> (r: Result<(), GameError>)
        requires
            old(world)@.wf(),
            all_motion_fits(old(world)@.balls, dt as int),
        ensures
            tick_agrees(r, final(world)@, stepped(old(world)@, axes@, dt as int)),
            r is Ok ==> final(world)@.wf(),
    {
        let ghost v = world@;
        PlayerInput.run(axes, world.players_active, &mut world.commands);
        let moved = world.paddle_motion.run(
            &world.commands,
            &world.arena,
            &world.paddle_config,
            world.players,
            &mut world.paddles,
        );
        if let Err(e) = moved {
            return Err(e);
        }
        MoveBallsSystem.run(&mut world.balls, dt);
        proof {
            lemma_move_all_wf(v.balls, dt as int);
        }
        BounceSystem.run(&mut world.balls, &world.paddles, &world.arena);
        let ghost bounced = world.balls@;
        assert forall|i: int| 0 <= i < bounced.len() implies #[trigger] bounced[i].velocity.x > i64::MIN by {
            assert(bounced[i].wf());
        }
        WinnerSystem.run(&mut world.balls, &mut world.score_board, &mut world.score_text, &world.arena);
        proof {
            lemma_score_all_wf(bounced, world.arena.width as int);
        }
        world.commands.end_frame();
        assert(world@ == stepped(v, axes@, dt as int)->Ok_0);
        Ok(())
    }
}

/// Runs one frame in state `state`: the pipeline while playing, nothing otherwise.
pub fn tick(world: &mut World, state: GameState, axes: &Vec<AxisValue>, dt: u32) -> (r: Result<(), GameError>)
    requires
        old(world)@.wf(),
        state == GameState::Playing ==> all_motion_fits(old(world)@.balls, dt as int),
    ensures
        tick_agrees(r, final(world)@, ticked(old(world)@, state, axes@, dt as int)),
        state != GameState::Playing ==> r is Ok && *final(world) == *old(world),
        r is Ok ==> final(world)@.wf(),
{
    if state == GameState::Playing {
        GameSystemsBundle.dispatch(world, axes, dt)
    } else {
        Ok(())
    }
}

} // verus!
