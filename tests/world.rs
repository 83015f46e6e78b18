use pong::components::{Side, Vec2};
use pong::config::{ArenaConfig, BallConfig, GameConfig, PaddleConfig};
use pong::input::AxisValue;
use pong::resources::{GameError, Player, Players, PlayersActive, ScoreBoard};
use pong::states::GameState;
use pong::world::{config_is_playable, tick, GameSystemsBundle, World};

fn world(active: PlayersActive) -> World {
    World::new(&GameConfig::default(), active)
}

fn axis(name: &str, value: i32) -> AxisValue {
    AxisValue { name: name.to_string(), value: Some(value) }
}

#[test]
fn default_configuration() {
    let config = GameConfig::default();
    assert_eq!(config.arena, ArenaConfig { height: 1_000_000, width: 1_000_000 });
    assert_eq!(config.ball, BallConfig { velocity: Vec2 { x: 750, y: 500 }, radius: 25_000 });
    assert_eq!(config.paddle, PaddleConfig { height: 150_000, width: 25_000 });
    assert_eq!(ArenaConfig::default(), config.arena);
    assert_eq!(BallConfig::default(), config.ball);
    assert_eq!(PaddleConfig::default(), config.paddle);
}

#[test]
fn new_session_layout() {
    let w = world(PlayersActive { p1: true, p2: true });
    assert_eq!(w.paddles.len(), 2);
    assert_eq!(w.paddles[0].side, Side::Left);
    assert_eq!(w.paddles[0].position, Vec2 { x: 12_500, y: 500_000 });
    assert_eq!(w.paddles[1].side, Side::Right);
    assert_eq!(w.paddles[1].position, Vec2 { x: 987_500, y: 500_000 });
    assert_eq!(w.balls.len(), 1);
    assert_eq!(w.balls[0].position, Vec2 { x: 500_000, y: 500_000 });
    assert_eq!(w.balls[0].velocity, Vec2 { x: 750, y: 500 });
    assert_eq!(w.players, Players { p1: 0, p2: 1 });
    assert_eq!(w.score_board, ScoreBoard { score_left: 0, score_right: 0 });
    assert_eq!(w.score_text.p1_score, "0");
    assert_eq!(w.score_text.p2_score, "0");
}

#[test]
fn paused_ticks_change_nothing() {
    let mut w = world(PlayersActive { p1: true, p2: true });
    let axes = vec![axis("left_paddle", 1000), axis("right_paddle", -1000)];
    for _ in 0..50 {
        assert_eq!(tick(&mut w, GameState::Paused, &axes, 16), Ok(()));
    }
    assert_eq!(w.balls[0].position, Vec2 { x: 500_000, y: 500_000 });
    assert_eq!(w.paddles[0].position.y, 500_000);
    assert_eq!(w.paddles[1].position.y, 500_000);
    assert_eq!(w.score_board, ScoreBoard { score_left: 0, score_right: 0 });
}

#[test]
fn playing_tick_runs_the_pipeline() {
    let mut w = world(PlayersActive { p1: true, p2: false });
    let axes = vec![axis("left_paddle", 1000), axis("left_paddle", -500), axis("right_paddle", 1000)];
    assert!(w.can_move_balls(16));
    assert_eq!(tick(&mut w, GameState::Playing, &axes, 16), Ok(()));
    assert_eq!(w.balls[0].position, Vec2 { x: 512_000, y: 508_000 });
    assert_eq!(w.paddles[0].position.y, 506_000);
    assert_eq!(w.paddles[1].position.y, 500_000);
    assert_eq!(w.commands.register_reader().cursor, 0);
    // The next frame still sees its own commands.
    let again = vec![axis("left_paddle", 1000)];
    assert_eq!(GameSystemsBundle.dispatch(&mut w, &again, 0), Ok(()));
    assert_eq!(w.paddles[0].position.y, 518_000);
}

#[test]
fn ball_leaving_the_arena_scores_in_a_tick() {
    let mut w = world(PlayersActive { p1: true, p2: true });
    w.balls[0].position = Vec2 { x: 30_000, y: 100_000 };
    w.balls[0].velocity = Vec2 { x: -750, y: 0 };
    assert_eq!(tick(&mut w, GameState::Playing, &Vec::new(), 10), Ok(()));
    assert_eq!(w.score_board, ScoreBoard { score_left: 0, score_right: 1 });
    assert_eq!(w.score_text.p2_score, "1");
    assert_eq!(w.balls[0].position, Vec2 { x: 500_000, y: 100_000 });
    assert_eq!(w.balls[0].velocity.x, 750);
}

#[test]
fn tick_with_missing_paddle_fails() {
    let mut w = world(PlayersActive { p1: true, p2: true });
    w.players = Players { p1: 0, p2: 9 };
    let axes = vec![axis("right_paddle", 1000)];
    assert_eq!(tick(&mut w, GameState::Playing, &axes, 16), Err(GameError::MissingPaddle(Player::P2)));
}

#[test]
fn motion_overflow_is_detected() {
    let mut w = world(PlayersActive { p1: true, p2: true });
    w.balls[0].velocity = Vec2 { x: i64::MAX, y: 0 };
    assert!(!w.can_move_balls(2));
    assert!(w.can_move_balls(0));
}

#[test]
fn playable_configurations() {
    let mut config = GameConfig::default();
    assert!(config_is_playable(&config));
    config.arena.width = 0;
    assert!(!config_is_playable(&config));
    let mut fast = GameConfig::default();
    fast.ball.velocity.y = i64::MIN;
    assert!(!config_is_playable(&fast));
    let mut negative = GameConfig::default();
    negative.ball.radius = -1;
    assert!(!config_is_playable(&negative));
}
