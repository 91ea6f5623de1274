//! The two control flags and how keys change them.

use vstd::prelude::*;

verus! {

/// A key as the input loop sees it.
#[derive(Clone, Copy, Debug, PartialEq, Eq, Structural)]
pub enum Key {
    /// A key that types a character.
    Char(char),
    /// Any other key.
    Other,
}

/// What the input loop has to do after a key, beyond keeping the flags.
#[derive(Clone, Copy, Debug, PartialEq, Eq, Structural)]
pub enum Reaction {
    /// Nothing.
    Carry,
    /// Show the pause notice in the top-left corner.
    Announce,
    /// Leave the loop.
    Quit,
}

/// The flags shared by the input loop, which sets them, and the render loop,
/// which reads them.
#[derive(Clone, Copy, Debug, PartialEq, Eq, Structural)]
pub struct Control {
    /// Cleared to stop both loops.
    pub running: bool,
    /// Set while the display is frozen.
    pub paused: bool,
}

impl Key {
    /// The key asks to quit: `q` or `Q`.
    pub open spec fn quits(self) -> bool {
        self == Key::Char('q') || self == Key::Char('Q')
    }

    /// The key toggles the pause: the space bar.
    pub open spec fn toggles(self) -> bool {
        self == Key::Char(' ')
    }
}

impl Control {
    /// The flags after `key`: a quit key clears `running`, the space bar
    /// flips `paused`, any other key changes nothing.
    pub open spec fn after_key(self, key: Key) -> Control {
        if key.quits() {
            Control { running: false, paused: self.paused }
        } else if key.toggles() {
            Control { running: self.running, paused: !self.paused }
        } else {
            self
        }
    }

    /// What `key` asks of the input loop: to quit on a quit key, to show the
    /// notice where the space bar has just paused the display.
    pub open spec fn reaction_to(self, key: Key) -> Reaction {
        if key.quits() {
            Reaction::Quit
        } else if key.toggles() && !self.paused {
            Reaction::Announce
        } else {
            Reaction::Carry
        }
    }

    /// The flags at startup: running, not paused.
    pub fn new() -> (c: Control)
        ensures
            c.running,
            !c.paused,
    {
        Control { running: true, paused: false }
    }

    /// Takes a key: updates the flags and says what else is to be done.
    pub fn on_key(&mut self, key: Key) -> (reaction: Reaction)
        ensures
            *final(self) == old(self).after_key(key),
            reaction == old(self).reaction_to(key),
    {
        match key {
            Key::Char('q') | Key::Char('Q') => {
                self.running = false;
                Reaction::Quit
            },
            Key::Char(' ') => {
                let was_paused: bool = self.paused;
                self.paused = !was_paused;
                if was_paused {
                    Reaction::Carry
                } else {
                    Reaction::Announce
                }
            },
            _ => Reaction::Carry,
        }
    }
}

/// The notice shown when the display is paused.
pub fn pause_notice() -> (text: &'static str)
    ensures
        text@ == "*PAUSED* (press [SPACE] to resume, [q] to quit)"@,
{
    "*PAUSED* (press [SPACE] to resume, [q] to quit)"
}

/// Pressing the space bar twice restores the flags, and exactly the first
/// press that pauses asks for the notice. A quit key stops the program
/// whatever the flags were, and leaves `paused` alone.
pub proof fn lemma_key_laws(c: Control, key: Key)
    ensures
        key.toggles() ==> c.after_key(key).after_key(key) == c,
        key.toggles() ==> (c.reaction_to(key) == Reaction::Announce <==> c.after_key(key).paused),
        key.quits() ==> !c.after_key(key).running && c.after_key(key).paused == c.paused,
        !key.quits() ==> c.after_key(key).running == c.running,
        !key.quits() && !key.toggles() ==> c.after_key(key) == c,
{
}

} // verus!
