//! Session-wide values: players, game mode, and the scoreboard.

use vstd::prelude::*;

verus! {

/// The two player slots.
#[derive(Clone, Copy, Debug, PartialEq, Eq, Structural)]
pub enum Player {
    P1,
    P2,
}

/// Which players accept input this session.
#[derive(Clone, Copy, Debug, PartialEq, Eq, Structural)]
pub struct PlayersActive {
    pub p1: bool,
    pub p2: bool,
}

/// One or two human players.
#[derive(Clone, Copy, Debug, PartialEq, Eq, Structural)]
pub enum GameMode {
    SinglePlayer,
    MultiPlayer,
}

impl Default for GameMode {
    fn default() -> (r: GameMode)
        ensures
            r == GameMode::MultiPlayer,
    {
        GameMode::MultiPlayer
    }
}

/// Where each player's paddle stands in the session's paddle list.
#[derive(Clone, Copy, Debug, PartialEq, Eq, Structural)]
pub struct Players {
    pub p1: usize,
    pub p2: usize,
}

/// A structural fault that ends the session.
#[derive(Clone, Copy, Debug, PartialEq, Eq, Structural)]
pub enum GameError {
    /// The player's paddle is not in the session's paddle list.
    MissingPaddle(Player),
    /// The session holds no ball.
    MissingBall,
}

/// The highest score a side can reach.
pub const MAX_SCORE: i32 = 999;

/// The points of each side.
#[derive(Clone, Copy, Debug, PartialEq, Eq, Structural)]
pub struct ScoreBoard {
    pub score_left: i32,
    pub score_right: i32,
}

/// `score` raised by `n` points, held at `MAX_SCORE`; unchanged when `n` is zero.
pub open spec fn raised(score: int, n: nat) -> int {
    if n == 0 {
        score
    } else if score + n <= MAX_SCORE {
        score + n
    } else {
        MAX_SCORE as int
    }
}

impl ScoreBoard {
    /// Both scores lie in `[0, MAX_SCORE]`.
    pub open spec fn wf(self) -> bool {
        &&& 0 <= self.score_left <= MAX_SCORE
        &&& 0 <= self.score_right <= MAX_SCORE
    }

    /// A board with no points.
    pub fn new() -> (r: ScoreBoard)
        ensures
            r.score_left == 0,
            r.score_right == 0,
    {
        ScoreBoard { score_left: 0, score_right: 0 }
    }
}

/// One more point, held at `MAX_SCORE`: `min(score + 1, MAX_SCORE)`.
pub fn add_point(score: i32) -> (r: i32)
    ensures
        r == raised(score as int, 1),
{
    if score < MAX_SCORE {
        score + 1
    } else {
        MAX_SCORE
    }
}

/// The decimal digits of `n`, most significant first.
pub open spec fn digits(n: nat) -> Seq<char>
    decreases n,
{
    if n < 10 {
        seq![(('0' as u8) + n) as char]
    } else {
        digits(n / 10).push((('0' as u8) + (n % 10)) as char)
    }
}

/// The decimal form of `n`, with a leading '-' when it is negative.
pub open spec fn decimal(n: int) -> Seq<char> {
    if n < 0 {
        seq!['-'] + digits((-n) as nat)
    } else {
        digits(n as nat)
    }
}

/// Relies on `ToString` for `i32` (std's `Display`): the decimal form of the number.
#[verifier::external_body]
pub(crate) fn decimal_text(n: i32) -> (r: String)
    ensures
        r@ == decimal(n as int),
{
    n.to_string()
}

/// The texts that the display shows for each side's score.
#[derive(Debug, PartialEq, Eq)]
pub struct ScoreText {
    pub p1_score: String,
    pub p2_score: String,
}

impl ScoreText {
    /// Both texts read "0".
    pub fn new() -> (r: ScoreText)
        ensures
            r.p1_score@ == decimal(0),
            r.p2_score@ == decimal(0),
    {
        ScoreText { p1_score: decimal_text(0), p2_score: decimal_text(0) }
    }
}

} // verus!
