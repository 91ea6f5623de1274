//! The render loop's state: the streams on screen, and what one tick does to
//! them.

use crate::chance::random_ratio;
use crate::direction::Direction;
use crate::glyphs::{is_glyph_string, random_string};
use crate::palette::{in_palette, random_color, Color};
use crate::stream::Stream;
use vstd::prelude::*;

verus! {

/// The most streams that outlive a tick.
pub const MAX_STREAMS: usize = 20;

/// Out of a hundred ticks, how many bring a new stream.
pub const CHAOS_PERCENT: u32 = 20;

/// One draw command: put `text` at column `x`, row `y`, in `color`.
#[derive(Debug)]
pub struct Draw {
    /// Column to write at.
    pub x: u16,
    /// Row to write at.
    pub y: u16,
    /// Foreground colour of the text.
    pub color: Color,
    /// The glyphs to write.
    pub text: String,
}

/// The streams on screen, oldest first.
#[derive(Debug)]
pub struct Rain {
    /// The streams in the order of their birth.
    pub streams: Vec<Stream>,
}

/// `after` is what one tick can make of `before` on a terminal `max_x`
/// columns wide.
pub open spec fn may_follow(before: Stream, after: Stream, max_x: u16) -> bool {
    exists|chance: bool, heading: Direction| after == before.stepped(max_x, chance, heading)
}

/// `after` is what the tick of its birth can make of a stream born on a
/// `max_x` by `max_y` terminal.
pub open spec fn may_appear(after: Stream, max_x: u16, max_y: u16) -> bool {
    exists|born: Stream| born.x < max_x && born.y < max_y && may_follow(born, after, max_x)
}

/// `draw` shows the stream `s`: at its position, in a colour of the palette,
/// with a string of catalog glyphs.
pub open spec fn shows(draw: Draw, s: Stream) -> bool {
    &&& draw.x == s.x
    &&& draw.y == s.y
    &&& in_palette(draw.color)
    &&& is_glyph_string(draw.text@)
}

/// The streams left after eviction: all of them up to the cap, and all but
/// the oldest beyond it.
pub open spec fn evicted(streams: Seq<Stream>) -> Seq<Stream> {
    if streams.len() > MAX_STREAMS {
        streams.skip(1)
    } else {
        streams
    }
}

/// What a rendering pass on a `max_x` by `max_y` terminal can make of
/// `before`: every stream has taken one tick, in place; at most one stream
/// was born at the end, and has taken its first tick; `frame` shows every
/// stream, in order.
pub open spec fn rendered(
    before: Seq<Stream>,
    after: Seq<Stream>,
    frame: Seq<Draw>,
    max_x: u16,
    max_y: u16,
) -> bool {
    &&& after.len() == before.len() || after.len() == before.len() + 1
    &&& forall|i: int| 0 <= i < before.len() ==> may_follow(before[i], #[trigger] after[i], max_x)
    &&& after.len() == before.len() + 1 ==> may_appear(after.last(), max_x, max_y)
    &&& frame.len() == after.len()
    &&& forall|i: int| 0 <= i < after.len() ==> shows(#[trigger] frame[i], after[i])
}

/// A population within the cap is within the cap again after a rendering pass
/// and the eviction that follows it. Where the pass has brought it above the
/// cap, the oldest stream is the one that goes, and the others keep their
/// order.
pub proof fn lemma_cap_kept(
    before: Seq<Stream>,
    moved: Seq<Stream>,
    frame: Seq<Draw>,
    max_x: u16,
    max_y: u16,
)
    requires
        before.len() <= MAX_STREAMS,
        rendered(before, moved, frame, max_x, max_y),
    ensures
        evicted(moved).len() <= MAX_STREAMS,
        moved.len() <= MAX_STREAMS ==> evicted(moved) == moved,
        moved.len() > MAX_STREAMS ==> evicted(moved).len() == MAX_STREAMS && forall|i: int|
            0 <= i < MAX_STREAMS ==> #[trigger] evicted(moved)[i] == moved[i + 1],
{
}

/// Decides whether this tick brings a new stream: yes once in five.
pub fn should_spawn() -> bool {
    random_ratio(CHAOS_PERCENT, 100)
}

impl Rain {
    /// A pass can be rendered on a `max_x` by `max_y` terminal: a stream can
    /// be born there, and every stream can take a tick.
    pub open spec fn renderable(&self, max_x: u16, max_y: u16) -> bool {
        &&& max_x >= 2
        &&& max_y >= 1
        &&& forall|i: int|
            0 <= i < self.streams@.len() ==> (#[trigger] self.streams@[i]).steppable(max_x)
    }

    /// An empty screen.
    pub fn new() -> (rain: Rain)
        ensures
            rain.streams@.len() == 0,
    {
        Rain { streams: Vec::new() }
    }

    /// The number of streams.
    pub fn len(&self) -> (n: usize)
        ensures
            n == self.streams@.len(),
    {
        self.streams.len()
    }

    /// Whether a pass can be rendered on a `max_x` by `max_y` terminal.
    pub fn can_render(&self, max_x: u16, max_y: u16) -> (b: bool)
        ensures
            b == self.renderable(max_x, max_y),
    {
        if max_x < 2 || max_y < 1 {
            return false;
        }
        let mut i: usize = 0;
        while i < self.streams.len()
            invariant
                i <= self.streams@.len(),
                forall|j: int| 0 <= j < i ==> (#[trigger] self.streams@[j]).steppable(max_x),
            decreases self.streams@.len() - i,
        {
            if !self.streams[i].can_update(max_x) {
                return false;
            }
            i = i + 1;
        }
        true
    }

    /// One rendering pass: with one chance in five a stream is born at the
    /// end of the list; then every stream takes a tick and is drawn with a
    /// fresh colour and a fresh string. Returns the draw commands, one for
    /// each stream, oldest first.
    pub fn render(&mut self, max_x: u16, max_y: u16) -> (frame: Vec<Draw>)
        requires
            old(self).renderable(max_x, max_y),
        ensures
            rendered(old(self).streams@, final(self).streams@, frame@, max_x, max_y),
    {
        if should_spawn() {
            let born: Stream = Stream::new(max_x, max_y);
            self.streams.push(born);
        }
        let ghost grown = self.streams@;
        let mut frame: Vec<Draw> = Vec::new();
        let mut i: usize = 0;
        while i < self.streams.len()
            invariant
                i <= self.streams@.len(),
                self.streams@.len() == grown.len(),
                frame@.len() == i,
                forall|j: int| 0 <= j < grown.len() ==> (#[trigger] grown[j]).steppable(max_x),
                forall|j: int| i <= j < grown.len() ==> self.streams@[j] == grown[j],
                forall|j: int|
                    0 <= j < i ==> may_follow(grown[j], #[trigger] self.streams@[j], max_x),
                forall|j: int| 0 <= j < i ==> shows(#[trigger] frame@[j], self.streams@[j]),
            decreases self.streams@.len() - i,
        {
            let mut s: Stream = self.streams[i];
            assert(s == grown[i as int]);
            s.update(max_x, max_y);
            self.streams.set(i, s);
            frame.push(Draw { x: s.x, y: s.y, color: random_color(), text: random_string() });
            i = i + 1;
        }
        frame
    }

    /// Removes the oldest stream where there are more than twenty.
    pub fn evict(&mut self)
        ensures
            final(self).streams@ == evicted(old(self).streams@),
    {
        if self.streams.len() > MAX_STREAMS {
            self.streams.remove(0);
        }
    }

    /// One tick of the render loop. Unless the display is paused or the size
    /// of the terminal is unknown, a pass is rendered on a terminal of that
    /// size; in any case the oldest stream is then removed if there are more
    /// than twenty. Returns the draw commands of the pass, to be sent as one
    /// batch. A population within the cap stays within it, and a tick without
    /// a pass leaves it as it is.
    pub fn tick(&mut self, paused: bool, size: Option<(u16, u16)>) -> (frame: Vec<Draw>)
        requires
            !paused ==> (size matches Some(dim) ==> old(self).renderable(dim.0, dim.1)),
        ensures
            paused || size is None ==> frame@.len() == 0,
            paused || size is None ==> final(self).streams@ == evicted(old(self).streams@),
            !paused ==> (size matches Some(dim) ==> exists|moved: Seq<Stream>|
                rendered(old(self).streams@, moved, frame@, dim.0, dim.1)
                    && final(self).streams@ == evicted(moved)),
            old(self).streams@.len() <= MAX_STREAMS ==> final(self).streams@.len() <= MAX_STREAMS,
            old(self).streams@.len() <= MAX_STREAMS && (paused || size is None)
                ==> final(self).streams@ == old(self).streams@,
    {
        let mut frame: Vec<Draw> = Vec::new();
        if !paused {
            if let Some((max_x, max_y)) = size {
                frame = self.render(max_x, max_y);
            }
        }
        self.evict();
        frame
    }
}

} // verus!
