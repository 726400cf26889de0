//! Keyboard input as the menus and the player see it.
use vstd::prelude::*;

verus! {

/// A physical key. The keys that the menus react to have names; every other
/// key is told apart by a code of its own.
#[derive(Clone, Copy, PartialEq, Eq, Structural, Debug)]
pub enum Key {
    ArrowUp,
    ArrowDown,
    ArrowLeft,
    ArrowRight,
    Escape,
    Enter,
    Backspace,
    Other(u64),
}

/// One keyboard event: which key, whether it went down or up, whether it is
/// an automatic repeat, and the text it typed, if any.
#[derive(Debug)]
pub struct KeyInput {
    pub key: Key,
    pub pressed: bool,
    pub repeat: bool,
    pub text: Option<String>,
}

impl KeyInput {
    /// The typed text, by its characters.
    pub open spec fn text_view(&self) -> Option<Seq<char>> {
        match self.text {
            Some(t) => Some(t@),
            None => None,
        }
    }
}

} // verus!
