use pong::components::{Ball, Vec2};
use pong::config::ArenaConfig;
use pong::resources::{add_point, ScoreBoard, ScoreText};
use pong::winner::{score_balls, Winner, WinnerSystem};

fn ball(x: i64, vx: i64) -> Ball {
    Ball { position: Vec2 { x, y: 300_000 }, velocity: Vec2 { x: vx, y: 500 }, radius: 25_000 }
}

#[test]
fn left_exit_scores_for_the_right_player() {
    let mut balls = vec![ball(25_000, -750)];
    let mut board = ScoreBoard::new();
    let mut text = ScoreText::new();
    let arena = ArenaConfig { height: 1_000_000, width: 1_000_000 };
    WinnerSystem.run(&mut balls, &mut board, &mut text, &arena);
    assert_eq!(board, ScoreBoard { score_left: 0, score_right: 1 });
    assert_eq!(balls[0].velocity, Vec2 { x: 750, y: 500 });
    assert_eq!(balls[0].position, Vec2 { x: 500_000, y: 300_000 });
    assert_eq!(text.p2_score, "1");
    assert_eq!(text.p1_score, "0");
}

#[test]
fn right_exit_scores_for_the_left_player() {
    let mut balls = vec![ball(980_000, 750)];
    let mut board = ScoreBoard { score_left: 41, score_right: 7 };
    let mut text = ScoreText::new();
    score_balls(&mut balls, &mut board, &mut text, 1_000_000);
    assert_eq!(board, ScoreBoard { score_left: 42, score_right: 7 });
    assert_eq!(balls[0].velocity.x, -750);
    assert_eq!(balls[0].position.x, 500_000);
    assert_eq!(text.p1_score, "42");
    assert_eq!(text.p2_score, "0");
}

#[test]
fn ball_inside_does_not_score() {
    let mut balls = vec![ball(25_001, -750), ball(974_999, 750)];
    let mut board = ScoreBoard::new();
    let mut text = ScoreText::new();
    Winner.run(&mut balls, &mut board, &mut text);
    assert_eq!(board, ScoreBoard { score_left: 0, score_right: 0 });
    assert_eq!(balls, vec![ball(25_001, -750), ball(974_999, 750)]);
}

#[test]
fn score_stops_at_999() {
    let mut board = ScoreBoard { score_left: 998, score_right: 999 };
    let mut text = ScoreText::new();
    let mut balls = vec![ball(0, -750)];
    score_balls(&mut balls, &mut board, &mut text, 1_000_000);
    assert_eq!(board.score_right, 999);
    assert_eq!(text.p2_score, "999");
    for _ in 0..5 {
        let mut exiting = vec![ball(999_000, 750)];
        score_balls(&mut exiting, &mut board, &mut text, 1_000_000);
        assert!(board.score_left <= 999);
    }
    assert_eq!(board.score_left, 999);
    assert_eq!(text.p1_score, "999");
}

#[test]
fn repeated_scoring_never_passes_999() {
    let mut board = ScoreBoard::new();
    let mut text = ScoreText::new();
    for _ in 0..1200 {
        let mut balls = vec![ball(10, -750), ball(990_000, 750)];
        score_balls(&mut balls, &mut board, &mut text, 1_000_000);
        assert!(board.score_left <= 999 && board.score_right <= 999);
    }
    assert_eq!(board, ScoreBoard { score_left: 999, score_right: 999 });
}

#[test]
fn two_balls_score_two_points() {
    let mut balls = vec![ball(0, -750), ball(-5, -10)];
    let mut board = ScoreBoard::new();
    let mut text = ScoreText::new();
    score_balls(&mut balls, &mut board, &mut text, 1_000_000);
    assert_eq!(board.score_right, 2);
    assert_eq!(text.p2_score, "2");
}

#[test]
fn add_point_caps() {
    assert_eq!(add_point(0), 1);
    assert_eq!(add_point(998), 999);
    assert_eq!(add_point(999), 999);
    assert_eq!(add_point(i32::MAX), 999);
}
