//! A stream: one moving trail of glyphs, and the rule that moves it.

use crate::chance::{random_range, random_ratio};
use crate::direction::Direction;
use vstd::prelude::*;

verus! {

/// Out of a hundred ticks, how many turn a stream that met no edge.
pub const TURN_PERCENT: u32 = 10;

/// A moving trail with a position and a heading. Column and row count from
/// the top-left corner of the terminal.
#[derive(Clone, Copy, Debug, PartialEq, Eq, Structural)]
pub struct Stream {
    /// Column.
    pub x: u16,
    /// Row.
    pub y: u16,
    /// Heading.
    pub direction: Direction,
}

impl Stream {
    /// Column of the candidate position: one step ahead.
    pub open spec fn next_x(self) -> int {
        self.x + self.direction.dx()
    }

    /// Row of the candidate position: one step ahead.
    pub open spec fn next_y(self) -> int {
        self.y + self.direction.dy()
    }

    /// The candidate position meets an edge of a terminal `max_x` columns
    /// wide: the left edge, the right margin or the top. There is no bottom
    /// edge.
    pub open spec fn blocked(self, max_x: u16) -> bool {
        self.next_x() <= 0 || self.next_x() >= max_x - 2 || self.next_y() <= 0
    }

    /// The stream after a tick that moves it: the candidate position is
    /// taken, the heading kept.
    pub open spec fn advanced(self) -> Stream {
        Stream { x: self.next_x() as u16, y: self.next_y() as u16, direction: self.direction }
    }

    /// The stream after a tick that turns it towards `heading`: it stays
    /// where it is, except that a candidate beyond the left edge puts it in
    /// column 1, one at or beyond the last column puts it in column
    /// `max_x - 2`, and one above the top puts it in row 1.
    pub open spec fn turned(self, max_x: u16, heading: Direction) -> Stream {
        Stream {
            x: if self.next_x() >= max_x - 1 {
                (max_x - 2) as u16
            } else if self.next_x() <= 0 {
                1
            } else {
                self.x
            },
            y: if self.next_y() <= 0 {
                1
            } else {
                self.y
            },
            direction: heading,
        }
    }

    /// The stream after one tick. It turns where the candidate position is
    /// blocked or the coin `chance` came up; otherwise it moves. `heading`
    /// counts only where it turns, `chance` only where it is not blocked.
    pub open spec fn stepped(self, max_x: u16, chance: bool, heading: Direction) -> Stream {
        if self.blocked(max_x) || chance {
            self.turned(max_x, heading)
        } else {
            self.advanced()
        }
    }

    /// Both positions a tick can lead to fit the coordinates: the column
    /// `max_x - 2` where the stream would be put there, and the candidate
    /// row where the stream could move.
    pub open spec fn steppable(self, max_x: u16) -> bool {
        &&& self.next_x() >= max_x - 1 ==> max_x >= 2
        &&& !self.blocked(max_x) ==> self.next_y() <= u16::MAX
    }

    /// The stream is inside the field of a terminal `max_x` columns wide:
    /// columns 1 to `max_x - 2`, any row from 1 on.
    pub open spec fn in_bounds(self, max_x: u16) -> bool {
        1 <= self.x <= max_x - 2 && self.y >= 1
    }

    /// A stream at a random cell of a `max_x` by `max_y` terminal with a
    /// random heading.
    pub fn new(max_x: u16, max_y: u16) -> (s: Stream)
        requires
            max_x > 0,
            max_y > 0,
        ensures
            s.x < max_x,
            s.y < max_y,
    {
        let x: u16 = random_range(0, max_x);
        let y: u16 = random_range(0, max_y);
        Stream { x, y, direction: Direction::random() }
    }

    /// Whether the candidate position meets an edge.
    pub fn is_blocked(&self, max_x: u16) -> (b: bool)
        ensures
            b == self.blocked(max_x),
    {
        let (dx, dy) = self.direction.get_offset();
        let new_x: i32 = self.x as i32 + dx as i32;
        let new_y: i32 = self.y as i32 + dy as i32;
        new_x <= 0 || new_x >= max_x as i32 - 2 || new_y <= 0
    }

    /// Whether a tick can be taken on a terminal `max_x` columns wide.
    pub fn can_update(&self, max_x: u16) -> (b: bool)
        ensures
            b == self.steppable(max_x),
    {
        let (dx, dy) = self.direction.get_offset();
        let new_x: i32 = self.x as i32 + dx as i32;
        let new_y: i32 = self.y as i32 + dy as i32;
        (new_x < max_x as i32 - 1 || max_x >= 2) && (self.is_blocked(max_x) || new_y <= 65535)
    }

    /// Moves the stream to its candidate position.
    pub fn advance(&mut self)
        requires
            0 <= old(self).next_x() <= u16::MAX,
            0 <= old(self).next_y() <= u16::MAX,
        ensures
            *final(self) == old(self).advanced(),
    {
        let (dx, dy) = self.direction.get_offset();
        let new_x: i32 = self.x as i32 + dx as i32;
        let new_y: i32 = self.y as i32 + dy as i32;
        self.x = new_x as u16;
        self.y = new_y as u16;
    }

    /// Turns the stream towards `heading`, pushing it back inside where its
    /// candidate position left the terminal.
    pub fn turn(&mut self, max_x: u16, heading: Direction)
        requires
            old(self).next_x() >= max_x - 1 ==> max_x >= 2,
        ensures
            *final(self) == old(self).turned(max_x, heading),
    {
        let (dx, dy) = self.direction.get_offset();
        let new_x: i32 = self.x as i32 + dx as i32;
        let new_y: i32 = self.y as i32 + dy as i32;
        self.direction = heading;
        if new_x <= 0 {
            self.x = 1;
        }
        if new_x >= max_x as i32 - 1 {
            self.x = max_x - 2;
        }
        if new_y <= 0 {
            self.y = 1;
        }
    }

    /// One tick with the outcomes of both draws given: `chance` is the coin
    /// that turns an unblocked stream, `heading` the direction it turns to.
    pub fn step(&mut self, max_x: u16, chance: bool, heading: Direction)
        requires
            old(self).steppable(max_x),
        ensures
            *final(self) == old(self).stepped(max_x, chance, heading),
    {
        if self.is_blocked(max_x) || chance {
            self.turn(max_x, heading);
        } else {
            self.advance();
        }
    }

    /// One tick. A stream whose candidate position is blocked turns to a
    /// random heading; any other stream does so one time in ten and moves to
    /// its candidate position otherwise. The height of the terminal plays no
    /// part: streams may leave through the bottom.
    pub fn update(&mut self, max_x: u16, _max_y: u16)
        requires
            old(self).steppable(max_x),
        ensures
            exists|chance: bool, heading: Direction|
                *final(self) == old(self).stepped(max_x, chance, heading),
            old(self).in_bounds(max_x) ==> final(self).in_bounds(max_x),
    {
        let ghost before = *self;
        if self.is_blocked(max_x) || random_ratio(TURN_PERCENT, 100) {
            let heading: Direction = Direction::random();
            self.turn(max_x, heading);
            assert(*self == before.stepped(max_x, true, heading));
        } else {
            self.advance();
            assert(*self == before.stepped(max_x, false, before.direction));
        }
    }
}

/// The stream after a run of ticks, the draws of each tick given in order.
pub open spec fn after(s: Stream, max_x: u16, draws: Seq<(bool, Direction)>) -> Stream
    decreases draws.len(),
{
    if draws.len() == 0 {
        s
    } else {
        after(s, max_x, draws.drop_last()).stepped(max_x, draws.last().0, draws.last().1)
    }
}

/// The stream sits where a turn leaves it outside the field: in column 0
/// heading right, in the last column heading left, or in row 0 heading down.
/// The candidate position is inside, so a turn corrects nothing.
pub open spec fn held_outside(s: Stream, max_x: u16) -> bool {
    ||| s.x == 0 && s.direction.dx() == 1
    ||| s.x == max_x - 1 && s.direction.dx() == -1
    ||| s.y == 0 && s.direction.dy() == 1
}

/// A stream inside the field is still inside it after a tick, whatever the
/// two draws give.
pub proof fn lemma_step_keeps_bounds(s: Stream, max_x: u16, chance: bool, heading: Direction)
    requires
        s.in_bounds(max_x),
        s.steppable(max_x),
    ensures
        s.stepped(max_x, chance, heading).in_bounds(max_x),
{
}

/// A stream inside the field stays inside it over any run of ticks, after
/// each of them and whatever the draws give, as long as its row can still be
/// counted: a tick moves it down by one row at most.
pub proof fn lemma_run_keeps_bounds(s: Stream, max_x: u16, draws: Seq<(bool, Direction)>)
    requires
        s.in_bounds(max_x),
        s.y + draws.len() <= u16::MAX,
    ensures
        after(s, max_x, draws).in_bounds(max_x),
        after(s, max_x, draws).y <= s.y + draws.len(),
        forall|k: int|
            0 <= k <= draws.len() ==> (#[trigger] after(s, max_x, draws.take(k))).in_bounds(max_x),
{
    assert forall|k: int| 0 <= k <= draws.len() implies (#[trigger] after(
        s,
        max_x,
        draws.take(k),
    )).in_bounds(max_x) by {
        lemma_run_keeps_bounds_end(s, max_x, draws.take(k));
    }
    lemma_run_keeps_bounds_end(s, max_x, draws);
}

proof fn lemma_run_keeps_bounds_end(s: Stream, max_x: u16, draws: Seq<(bool, Direction)>)
    requires
        s.in_bounds(max_x),
        s.y + draws.len() <= u16::MAX,
    ensures
        after(s, max_x, draws).in_bounds(max_x),
        after(s, max_x, draws).y <= s.y + draws.len(),
    decreases draws.len(),
{
    if draws.len() > 0 {
        lemma_run_keeps_bounds_end(s, max_x, draws.drop_last());
    }
}

/// From any position, one tick on a terminal at least three columns wide
/// puts the stream inside the field, with one exception: a stream that is
/// held outside and turns stays where it was.
pub proof fn lemma_step_enters_bounds(s: Stream, max_x: u16, chance: bool, heading: Direction)
    requires
        max_x >= 3,
        s.steppable(max_x),
    ensures
        s.stepped(max_x, chance, heading).in_bounds(max_x) <==> !(held_outside(s, max_x)
            && (s.blocked(max_x) || chance)),
{
}

} // verus!
