//! The command channel: an ordered, frame-scoped broadcast list of paddle commands.
//! Every reader keeps its own cursor and sees every command written since its last
//! read, in write order; readers never disturb one another.

use vstd::prelude::*;
use crate::resources::Player;

verus! {

/// An intent produced by input translation and consumed by paddle motion.
#[derive(Clone, Copy, Debug, PartialEq, Eq, Structural)]
pub enum Command {
    /// Move a player's paddle by an axis sample, counted in thousandths.
    MovePaddle(Player, i32),
}

/// A reader's position in the channel: the frame it last read in, and how many of
/// that frame's commands it has seen.
#[derive(Clone, Copy, Debug, PartialEq, Eq, Structural)]
pub struct ReaderId {
    pub frame: u64,
    pub cursor: usize,
}

/// What a channel holds: the number of the current frame and its commands in write order.
pub struct ChannelView {
    pub frame: u64,
    pub events: Seq<Command>,
}

/// The command channel.
pub struct CommandChannel {
    frame: u64,
    events: Vec<Command>,
}

impl View for CommandChannel {
    type V = ChannelView;

    closed spec fn view(&self) -> ChannelView {
        ChannelView { frame: self.frame, events: self.events@ }
    }
}

/// Where a reader's unread commands begin: at its cursor when it read earlier in the
/// same frame, else at the start of the frame.
pub open spec fn unread_start(ch: ChannelView, reader: ReaderId) -> int {
    if reader.frame == ch.frame {
        if reader.cursor <= ch.events.len() {
            reader.cursor as int
        } else {
            ch.events.len() as int
        }
    } else {
        0
    }
}

/// The commands a reader has not seen yet.
pub open spec fn unread(ch: ChannelView, reader: ReaderId) -> Seq<Command> {
    ch.events.subrange(unread_start(ch, reader), ch.events.len() as int)
}

/// The number of the frame after `frame`, wrapping at the end of `u64`.
pub open spec fn next_frame(frame: u64) -> u64 {
    if frame < u64::MAX {
        (frame + 1) as u64
    } else {
        0
    }
}

impl CommandChannel {
    /// An empty channel at frame zero.
    pub fn new() -> (r: CommandChannel)
        ensures
            r@.frame == 0,
            r@.events == Seq::<Command>::empty(),
    {
        CommandChannel { frame: 0, events: Vec::new() }
    }

    /// A reader that sees the commands written from now on.
    pub fn register_reader(&self) -> (r: ReaderId)
        ensures
            r.frame == self@.frame,
            r.cursor == self@.events.len(),
            unread(self@, r) == Seq::<Command>::empty(),
    {
        ReaderId { frame: self.frame, cursor: self.events.len() }
    }

    /// Appends one command.
    pub fn single_write(&mut self, command: Command)
        ensures
            final(self)@.frame == old(self)@.frame,
            final(self)@.events == old(self)@.events.push(command),
    {
        self.events.push(command);
    }

    /// The commands the reader has not seen yet, in write order; the reader's cursor
    /// moves past them.
    pub fn read(&self, reader: &mut ReaderId) -> (r: Vec<Command>)
        ensures
            r@ == unread(self@, *old(reader)),
            *final(reader) == (ReaderId { frame: self@.frame, cursor: self@.events.len() as usize }),
    {
        let len: usize = self.events.len();
        let start = if reader.frame == self.frame {
            if reader.cursor <= len {
                reader.cursor
            } else {
                len
            }
        } else {
            0
        };
        let mut out: Vec<Command> = Vec::new();
        let mut i: usize = start;
        while i < len
            invariant
                start <= i <= len,
                len == self@.events.len(),
                out@ == self@.events.subrange(start as int, i as int),
            decreases len - i,
        {
            out.push(self.events[i]);
            i = i + 1;
        }
        reader.frame = self.frame;
        reader.cursor = len;
        out
    }

    /// Ends the frame: the frame's commands are dropped and the next frame begins.
    pub fn end_frame(&mut self)
        ensures
            final(self)@.frame == next_frame(old(self)@.frame),
            final(self)@.events == Seq::<Command>::empty(),
    {
        self.events.clear();
        self.frame = if self.frame < u64::MAX {
            self.frame + 1
        } else {
            0
        };
    }
}

} // verus!
