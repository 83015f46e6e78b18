//! Input translation: axis samples become paddle commands on the command channel.

use vstd::prelude::*;
use crate::commands::{Command, CommandChannel};
use crate::resources::{GameMode, Player, PlayersActive};

verus! {

/// The current sample of one input axis, in thousandths; `None` when the axis has no
/// value this frame.
#[derive(Debug)]
pub struct AxisValue {
    pub name: String,
    pub value: Option<i32>,
}

/// Whether two strings hold the same characters.
pub fn str_eq(a: &str, b: &str) -> (r: bool)
    ensures
        r == (a@ == b@),
{
    let n: usize = a.unicode_len();
    if n != b.unicode_len() {
        return false;
    }
    let mut i: usize = 0;
    while i < n
        invariant
            0 <= i <= n,
            n == a@.len(),
            n == b@.len(),
            a@.take(i as int) == b@.take(i as int),
        decreases n - i,
    {
        if a.get_char(i) != b.get_char(i) {
            return false;
        }
        proof {
            assert(a@.take(i + 1) == a@.take(i as int).push(a@[i as int]));
            assert(b@.take(i + 1) == b@.take(i as int).push(b@[i as int]));
        }
        i = i + 1;
    }
    proof {
        assert(a@.take(n as int) == a@);
        assert(b@.take(n as int) == b@);
    }
    true
}

/// The player an axis name belongs to: "left_paddle" to player one, "right_paddle"
/// to player two.
pub open spec fn axis_player(name: Seq<char>) -> Option<Player> {
    if name == "left_paddle"@ {
        Some(Player::P1)
    } else if name == "right_paddle"@ {
        Some(Player::P2)
    } else {
        None
    }
}

/// Whether `player` accepts input.
pub open spec fn is_active(active: PlayersActive, player: Player) -> bool {
    match player {
        Player::P1 => active.p1,
        Player::P2 => active.p2,
    }
}

/// The command for one axis: none for a zero (or absent) sample, an unknown axis, or
/// an inactive player.
pub open spec fn axis_command(axis: AxisValue, active: PlayersActive) -> Option<Command> {
    let value = match axis.value {
        Some(v) => v,
        None => 0i32,
    };
    if value == 0 {
        None
    } else {
        match axis_player(axis.name@) {
            Some(player) => if is_active(active, player) {
                Some(Command::MovePaddle(player, value))
            } else {
                None
            },
            None => None,
        }
    }
}

/// The commands for the axes `axes`, in order.
pub open spec fn emitted(axes: Seq<AxisValue>, active: PlayersActive) -> Seq<Command>
    decreases axes.len(),
{
    if axes.len() == 0 {
        Seq::empty()
    } else {
        emitted(axes.drop_last(), active) + match axis_command(axes.last(), active) {
            Some(c) => seq![c],
            None => Seq::empty(),
        }
    }
}

/// The player of a recognised axis name.
pub fn player_of_axis(name: &str) -> (r: Option<Player>)
    ensures
        r == axis_player(name@),
{
    if str_eq(name, "left_paddle") {
        Some(Player::P1)
    } else if str_eq(name, "right_paddle") {
        Some(Player::P2)
    } else {
        None
    }
}

/// Input translation over named axes, for the active players.
pub struct PlayerInput;

impl PlayerInput {
    /// Writes one command per axis with a non-zero sample that belongs to an active
    /// player, in the order of `axes`.
    pub fn run(&self, axes: &Vec<AxisValue>, active: PlayersActive, channel: &mut CommandChannel)
        ensures
            final(channel)@.frame == old(channel)@.frame,
            final(channel)@.events == old(channel)@.events + emitted(axes@, active),
    {
        let ghost start = channel@.events;
        let mut i: usize = 0;
        while i < axes.len()
            invariant
                0 <= i <= axes@.len(),
                channel@.frame == old(channel)@.frame,
                start == old(channel)@.events,
                channel@.events == start + emitted(axes@.take(i as int), active),
            decreases axes@.len() - i,
        {
            let axis = &axes[i];
            proof {
                assert(axes@.take(i + 1).drop_last() == axes@.take(i as int));
                assert(axes@.take(i + 1).last() == axes@[i as int]);
            }
            let value: i32 = match axis.value {
                Some(v) => v,
                None => 0,
            };
            if value != 0 {
                match player_of_axis(axis.name.as_str()) {
                    Some(Player::P1) => {
                        if active.p1 {
                            channel.single_write(Command::MovePaddle(Player::P1, value));
                        }
                    },
                    Some(Player::P2) => {
                        if active.p2 {
                            channel.single_write(Command::MovePaddle(Player::P2, value));
                        }
                    },
                    // An axis with no paddle is ignored.
                    None => {},
                }
            }
            proof {
                let prev = emitted(axes@.take(i as int), active);
                match axis_command(axes@[i as int], active) {
                    Some(c) => assert(start + (prev + seq![c]) == (start + prev).push(c)),
                    None => assert(prev + Seq::<Command>::empty() == prev),
                }
            }
            i = i + 1;
        }
        proof {
            assert(axes@.take(axes@.len() as int) == axes@);
        }
    }
}

/// The players a game mode lets play: player one always, player two only in a
/// two-player game.
pub open spec fn mode_players(mode: GameMode) -> PlayersActive {
    PlayersActive { p1: true, p2: mode == GameMode::MultiPlayer }
}

/// The command for one player's sample: none when the sample is absent or zero, or
/// when the player is not active.
pub open spec fn sample_command(player: Player, sample: Option<i32>, active: PlayersActive) -> Seq<Command> {
    match sample {
        Some(v) => if v != 0 && is_active(active, player) {
            seq![Command::MovePaddle(player, v)]
        } else {
            Seq::empty()
        },
        None => Seq::empty(),
    }
}

/// The commands of the game-mode input pass: player one's sample, then player two's,
/// for the players the mode lets play.
pub open spec fn mode_commands(left: Option<i32>, right: Option<i32>, mode: GameMode) -> Seq<Command> {
    sample_command(Player::P1, left, mode_players(mode)) + sample_command(Player::P2, right, mode_players(mode))
}

/// The players a game mode lets play.
pub fn players_of_mode(mode: GameMode) -> (r: PlayersActive)
    ensures
        r == mode_players(mode),
{
    PlayersActive { p1: true, p2: mode == GameMode::MultiPlayer }
}

/// Input translation by game mode: the left axis drives player one, the right axis
/// drives player two only in a two-player game. As for named axes, a zero sample
/// writes nothing.
pub struct PlayerInputSystem;

impl PlayerInputSystem {
    /// Writes a command for each present, non-zero sample of a player the mode lets play.
    pub fn run(&self, left: Option<i32>, right: Option<i32>, mode: GameMode, channel: &mut CommandChannel)
        ensures
            final(channel)@.frame == old(channel)@.frame,
            final(channel)@.events == old(channel)@.events + mode_commands(left, right, mode),
    {
        let ghost start = channel@.events;
        let active = players_of_mode(mode);
        if let Some(movement) = left {
            if movement != 0 && active.p1 {
                channel.single_write(Command::MovePaddle(Player::P1, movement));
            }
        }
        if let Some(movement) = right {
            if movement != 0 && active.p2 {
                channel.single_write(Command::MovePaddle(Player::P2, movement));
            }
        }
        assert(channel@.events =~= start + mode_commands(left, right, mode));
    }
}

} // verus!
