use pong::commands::{Command, CommandChannel};
use pong::components::{Ball, Paddle, Side, Vec2};
use pong::config::{ArenaConfig, PaddleConfig};
use pong::paddles::{apply_commands, calculate_y, MovePaddleSystem, MovePaddles, MovePaddlesSystem, PaddleSystem};
use pong::resources::{GameError, Player, Players};

fn paddles() -> Vec<Paddle> {
    vec![
        Paddle { side: Side::Left, width: 25_000, height: 150_000, position: Vec2 { x: 12_500, y: 500_000 } },
        Paddle { side: Side::Right, width: 25_000, height: 150_000, position: Vec2 { x: 987_500, y: 500_000 } },
    ]
}

const PLAYERS: Players = Players { p1: 0, p2: 1 };

#[test]
fn calculate_y_moves_by_one_point_two_per_unit() {
    // A full sample (1000 thousandths) moves 1.2 world units: 12_000 coordinate units.
    assert_eq!(calculate_y(1_000_000, 150_000, 1000, 500_000), 512_000);
    assert_eq!(calculate_y(1_000_000, 150_000, -500, 500_000), 494_000);
    assert_eq!(calculate_y(1_000_000, 150_000, 0, 500_000), 500_000);
}

#[test]
fn calculate_y_clamps_at_both_ends() {
    assert_eq!(calculate_y(1_000_000, 150_000, 1000, 920_000), 925_000);
    assert_eq!(calculate_y(1_000_000, 150_000, -1000, 80_000), 75_000);
    assert_eq!(calculate_y(1_000_000, 150_000, i32::MAX, i64::MAX), 925_000);
    assert_eq!(calculate_y(1_000_000, 150_000, i32::MIN, i64::MIN), 75_000);
    // An odd paddle height keeps the centre a whole unit inside the arena.
    assert_eq!(calculate_y(1_000, 101, -1000, 0), 51);
    assert_eq!(calculate_y(1_000, 101, 1000, 1_000), 949);
}

#[test]
fn paddle_clamp_holds_for_many_inputs() {
    for &current in &[i64::MIN, -1_000_000, 0, 74_999, 500_000, 925_001, 2_000_000, i64::MAX] {
        for &delta in &[i32::MIN, -1000, -1, 0, 1, 1000, i32::MAX] {
            let y = calculate_y(1_000_000, 150_000, delta, current);
            assert!(y >= 75_000 && y <= 925_000);
        }
    }
}

#[test]
fn commands_apply_in_order_not_summed() {
    // Near the top: +1000 clamps at 925_000, then -1000 moves down to 913_000;
    // the summed movement (0) would have left the paddle at 920_000.
    let mut ps = paddles();
    ps[0].position.y = 920_000;
    let commands = vec![Command::MovePaddle(Player::P1, 1000), Command::MovePaddle(Player::P1, -1000)];
    assert_eq!(apply_commands(&mut ps, PLAYERS, 1_000_000, 150_000, &commands), Ok(()));
    assert_eq!(ps[0].position.y, 913_000);
    assert_eq!(ps[1].position.y, 500_000);
}

#[test]
fn missing_paddle_is_an_error() {
    let mut ps = paddles();
    let commands = vec![Command::MovePaddle(Player::P1, 1000), Command::MovePaddle(Player::P2, 1000)];
    let players = Players { p1: 0, p2: 7 };
    assert_eq!(
        apply_commands(&mut ps, players, 1_000_000, 150_000, &commands),
        Err(GameError::MissingPaddle(Player::P2))
    );
}

#[test]
fn move_paddles_system_reads_only_new_commands() {
    let mut channel = CommandChannel::new();
    let mut system = MovePaddlesSystem::setup(&channel);
    let arena = ArenaConfig { height: 1_000_000, width: 1_000_000 };
    let paddle = PaddleConfig { height: 150_000, width: 25_000 };
    let mut ps = paddles();
    channel.single_write(Command::MovePaddle(Player::P2, 250));
    assert_eq!(system.run(&channel, &arena, &paddle, PLAYERS, &mut ps), Ok(()));
    assert_eq!(ps[1].position.y, 503_000);
    // Read again in the same frame: nothing new.
    assert_eq!(system.run(&channel, &arena, &paddle, PLAYERS, &mut ps), Ok(()));
    assert_eq!(ps[1].position.y, 503_000);
    channel.single_write(Command::MovePaddle(Player::P1, -250));
    assert_eq!(system.run(&channel, &arena, &paddle, PLAYERS, &mut ps), Ok(()));
    assert_eq!(ps[0].position.y, 497_000);
    assert_eq!(ps[1].position.y, 503_000);
}

#[test]
fn move_paddles_uses_default_sizes() {
    let mut channel = CommandChannel::new();
    let mut system = MovePaddles::setup(&channel);
    let mut ps = paddles();
    channel.single_write(Command::MovePaddle(Player::P1, 1000));
    assert_eq!(system.run(&channel, PLAYERS, &mut ps), Ok(()));
    assert_eq!(ps[0].position.y, 512_000);
}

#[test]
fn reflex_paddle_follows_the_ball() {
    let arena = ArenaConfig { height: 1_000_000, width: 1_000_000 };
    let paddle = PaddleConfig { height: 150_000, width: 25_000 };
    let ball = Ball { position: Vec2 { x: 500_000, y: 800_000 }, velocity: Vec2 { x: 750, y: 500 }, radius: 25_000 };
    let mut ps = paddles();
    assert_eq!(MovePaddleSystem.run(&arena, &paddle, PLAYERS, &vec![ball], &mut ps), Ok(()));
    assert_eq!(ps[1].position.y, 512_000);
    assert_eq!(ps[0].position.y, 500_000);

    let low = Ball { position: Vec2 { x: 500_000, y: 100_000 }, ..ball };
    assert_eq!(MovePaddleSystem.run(&arena, &paddle, PLAYERS, &vec![low], &mut ps), Ok(()));
    assert_eq!(ps[1].position.y, 500_000);

    let level = Ball { position: Vec2 { x: 500_000, y: 500_000 }, ..ball };
    assert_eq!(MovePaddleSystem.run(&arena, &paddle, PLAYERS, &vec![level], &mut ps), Ok(()));
    assert_eq!(ps[1].position.y, 500_000);
}

#[test]
fn reflex_paddle_reports_missing_entities() {
    let arena = ArenaConfig { height: 1_000_000, width: 1_000_000 };
    let paddle = PaddleConfig { height: 150_000, width: 25_000 };
    let mut ps = paddles();
    assert_eq!(MovePaddleSystem.run(&arena, &paddle, PLAYERS, &Vec::new(), &mut ps), Err(GameError::MissingBall));
    let ball = Ball { position: Vec2 { x: 1, y: 2 }, velocity: Vec2 { x: 3, y: 4 }, radius: 5 };
    let players = Players { p1: 0, p2: 2 };
    assert_eq!(
        MovePaddleSystem.run(&arena, &paddle, players, &vec![ball], &mut ps),
        Err(GameError::MissingPaddle(Player::P2))
    );
}

#[test]
fn paddle_system_steers_each_side() {
    let mut ps = paddles();
    PaddleSystem.run(&mut ps, Some(1000), None);
    assert_eq!(ps[0].position.y, 512_000);
    assert_eq!(ps[1].position.y, 500_000);
    PaddleSystem.run(&mut ps, None, Some(-1000));
    assert_eq!(ps[0].position.y, 512_000);
    assert_eq!(ps[1].position.y, 488_000);
}
