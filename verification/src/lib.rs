//! Animation kernel of a terminal "glyph rain": streams of decorative glyphs
//! that wander over the screen, coloured by weighted choice.
//!
//! The crate holds the rules only. It decides where every stream goes, what is
//! drawn, and how the two control flags react to keys; the program around it
//! owns the terminal, the clock and the threads.

mod chance;
pub mod control;
pub mod direction;
pub mod glyphs;
pub mod palette;
pub mod rain;
pub mod stream;

pub use control::{Control, Key, Reaction};
pub use direction::Direction;
pub use glyphs::{random_string, CHAR_SET};
pub use palette::{colors, random_color, Color, Weight};
pub use rain::{Draw, Rain};
pub use stream::Stream;
