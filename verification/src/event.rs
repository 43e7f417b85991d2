//! The values that travel between the terminal, the input poller and the
//! application loop.

use vstd::prelude::*;

verus! {

/// How many events the channel from the input poller to the application loop
/// holds before the poller has to wait.
pub const CHANNEL_CAPACITY: usize = 100;

/// A key press, reduced to what the dispatch table tells apart.
#[derive(Debug, Clone, Copy, PartialEq, Eq, Structural)]
pub enum Key {
    /// The escape key.
    Escape,
    /// A key that produces a character.
    Char(char),
    /// Any other key: arrows, function keys, enter and the like.
    Other,
}

/// What the terminal hands to the input poller.
#[derive(Debug, Clone, Copy, PartialEq, Eq, Structural)]
pub enum TerminalEvent {
    /// A key was pressed.
    Key(Key),
    /// Anything that is not a key press: a resize, the mouse, focus, a paste.
    Other,
}

/// An event on the channel from the input poller to the application loop.
#[derive(Debug, Clone, Copy, PartialEq, Eq, Structural)]
pub enum AppEvent {
    /// The user pressed a key.
    Input(Key),
    /// The input poller has stopped; no event follows.
    Terminate,
    /// An event of a kind that the dispatch table has no entry for.
    Unrecognized,
}

} // verus!
