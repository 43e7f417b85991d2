//! The event-loop core of a terminal file explorer.
//!
//! Two loops cooperate: an input poller that turns terminal input into
//! [`AppEvent`]s, and an application loop that draws the current state and
//! then applies the next event to it. They share nothing but the event
//! channel and one stop signal. This crate holds the decisions of both loops,
//! each with a proved contract; running the loops, the channel and the
//! terminal is left to the program built on top.

pub mod event;
pub mod poller;
pub mod signal;
pub mod state;
pub mod ui;

pub use crate::event::{AppEvent, Key, TerminalEvent, CHANNEL_CAPACITY};
pub use crate::poller::{forward, Poller, PollerAction, POLL_INTERVAL_MS};
pub use crate::state::{Explorer, LoopAction, Mode, Outcome};
pub use crate::ui::{can_render, render, MAX_TEXT_LEN};
