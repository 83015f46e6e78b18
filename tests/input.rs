use pong::commands::{Command, CommandChannel};
use pong::input::{player_of_axis, players_of_mode, str_eq, AxisValue, PlayerInput, PlayerInputSystem};
use pong::resources::{GameMode, Player, PlayersActive};

fn axis(name: &str, value: Option<i32>) -> AxisValue {
    AxisValue { name: name.to_string(), value }
}

#[test]
fn axes_become_commands_for_active_players() {
    let mut channel = CommandChannel::new();
    let mut reader = channel.register_reader();
    let axes = vec![
        axis("left_paddle", Some(400)),
        axis("right_paddle", Some(-1000)),
        axis("zoom", Some(1000)),
    ];
    PlayerInput.run(&axes, PlayersActive { p1: true, p2: true }, &mut channel);
    assert_eq!(
        channel.read(&mut reader),
        vec![Command::MovePaddle(Player::P1, 400), Command::MovePaddle(Player::P2, -1000)]
    );
}

#[test]
fn zero_and_absent_samples_write_nothing() {
    let mut channel = CommandChannel::new();
    let mut reader = channel.register_reader();
    let axes = vec![axis("left_paddle", Some(0)), axis("right_paddle", None)];
    PlayerInput.run(&axes, PlayersActive { p1: true, p2: true }, &mut channel);
    assert_eq!(channel.read(&mut reader), vec![]);
}

#[test]
fn inactive_player_writes_nothing() {
    let mut channel = CommandChannel::new();
    let mut reader = channel.register_reader();
    let axes = vec![axis("right_paddle", Some(300)), axis("left_paddle", Some(-300))];
    PlayerInput.run(&axes, PlayersActive { p1: true, p2: false }, &mut channel);
    assert_eq!(channel.read(&mut reader), vec![Command::MovePaddle(Player::P1, -300)]);
}

#[test]
fn game_mode_input() {
    let mut channel = CommandChannel::new();
    let mut reader = channel.register_reader();
    PlayerInputSystem.run(Some(0), Some(5), GameMode::SinglePlayer, &mut channel);
    assert_eq!(channel.read(&mut reader), vec![]);
    PlayerInputSystem.run(Some(-7), Some(5), GameMode::SinglePlayer, &mut channel);
    assert_eq!(channel.read(&mut reader), vec![Command::MovePaddle(Player::P1, -7)]);
    PlayerInputSystem.run(None, Some(5), GameMode::MultiPlayer, &mut channel);
    assert_eq!(channel.read(&mut reader), vec![Command::MovePaddle(Player::P2, 5)]);
    PlayerInputSystem.run(Some(3), Some(0), GameMode::MultiPlayer, &mut channel);
    assert_eq!(channel.read(&mut reader), vec![Command::MovePaddle(Player::P1, 3)]);
    assert_eq!(players_of_mode(GameMode::SinglePlayer), PlayersActive { p1: true, p2: false });
    assert_eq!(players_of_mode(GameMode::MultiPlayer), PlayersActive { p1: true, p2: true });
    assert_eq!(GameMode::default(), GameMode::MultiPlayer);
}

#[test]
fn axis_names() {
    assert_eq!(player_of_axis("left_paddle"), Some(Player::P1));
    assert_eq!(player_of_axis("right_paddle"), Some(Player::P2));
    assert_eq!(player_of_axis("left_paddl"), None);
    assert_eq!(player_of_axis(""), None);
    assert!(str_eq("abc", "abc"));
    assert!(!str_eq("abc", "abd"));
    assert!(!str_eq("abc", "ab"));
}
