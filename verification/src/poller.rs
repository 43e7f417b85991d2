//! The decisions of the input poller.
//!
//! The poller runs beside the application loop. Each of its turns starts
//! with a look at the stop signal. Once the signal is up it sends a single
//! `Terminate` and is done; until then it waits a short while for terminal
//! input and forwards key presses. Waiting, reading and sending belong to
//! the program that runs the loop; what to do in each turn is decided here.

use crate::event::{AppEvent, TerminalEvent};
use std::sync::Arc;
use tokio_util::sync::CancellationToken;
use vstd::prelude::*;

verus! {

/// How long one turn waits for terminal input, in milliseconds. The wait is
/// bounded so that a raised stop signal is seen promptly.
pub const POLL_INTERVAL_MS: u64 = 100;

/// Where the input poller stands.
#[derive(Debug, Clone, Copy, PartialEq, Eq, Structural)]
pub enum Poller {
    /// Still watching the terminal.
    Polling,
    /// `Terminate` has been handed out; nothing more will be.
    Stopped,
}

/// What the poller is to do in the turn that begins.
#[derive(Debug, Clone, Copy, PartialEq, Eq, Structural)]
pub enum PollerAction {
    /// Wait up to [`POLL_INTERVAL_MS`] for terminal input and pass what
    /// arrives through [`forward`].
    Poll,
    /// Send `Terminate` and leave the loop.
    Terminate,
    /// Leave the loop; there is nothing left to send.
    Stop,
}

/// One turn as the poller meets it: whether the stop signal is up when the
/// turn begins, and what the terminal delivers within the wait, if anything.
pub struct Turn {
    pub cancelled: bool,
    pub input: Option<TerminalEvent>,
}

/// The poller's decision at the start of a turn, with the state it moves to.
pub open spec fn decision(poller: Poller, cancelled: bool) -> (Poller, PollerAction) {
    match poller {
        Poller::Stopped => (Poller::Stopped, PollerAction::Stop),
        Poller::Polling => if cancelled {
            (Poller::Stopped, PollerAction::Terminate)
        } else {
            (Poller::Polling, PollerAction::Poll)
        },
    }
}

/// The event that a piece of terminal input is forwarded as. Only key
/// presses are forwarded; everything else is dropped.
pub open spec fn forwarded(input: TerminalEvent) -> Option<AppEvent> {
    match input {
        TerminalEvent::Key(key) => Some(AppEvent::Input(key)),
        TerminalEvent::Other => None,
    }
}

/// The events sent in one turn, with the state after it.
pub open spec fn turn(poller: Poller, t: Turn) -> (Poller, Seq<AppEvent>) {
    let (next, action) = decision(poller, t.cancelled);
    let sent = match action {
        PollerAction::Terminate => seq![AppEvent::Terminate],
        PollerAction::Stop => Seq::empty(),
        PollerAction::Poll => match t.input {
            Some(input) => match forwarded(input) {
                Some(event) => seq![event],
                None => Seq::empty(),
            },
            None => Seq::empty(),
        },
    };
    (next, sent)
}

/// The events sent over a run of turns, in order, with the state at the end.
pub open spec fn turns(poller: Poller, ts: Seq<Turn>) -> (Poller, Seq<AppEvent>)
    decreases ts.len(),
{
    if ts.len() == 0 {
        (poller, Seq::empty())
    } else {
        let (mid, first) = turn(poller, ts.first());
        let (end, rest) = turns(mid, ts.drop_first());
        (end, first + rest)
    }
}

/// A stopped poller stays stopped and sends nothing, whatever happens.
pub proof fn lemma_stopped_is_silent(ts: Seq<Turn>)
    ensures
        turns(Poller::Stopped, ts) == (Poller::Stopped, Seq::<AppEvent>::empty()),
    decreases ts.len(),
{
    if ts.len() > 0 {
        lemma_stopped_is_silent(ts.drop_first());
        assert(Seq::<AppEvent>::empty() + Seq::<AppEvent>::empty() =~= Seq::<AppEvent>::empty());
    }
}

/// While the stop signal stays down the poller keeps polling, and all it
/// sends is key input: no `Terminate` among it.
pub proof fn lemma_polling_sends_input_only(ts: Seq<Turn>)
    requires
        forall|i: int| 0 <= i < ts.len() ==> !ts[i].cancelled,
    ensures
        turns(Poller::Polling, ts).0 == Poller::Polling,
        forall|j: int|
            0 <= j < turns(Poller::Polling, ts).1.len() ==> turns(Poller::Polling, ts).1[j] is Input,
    decreases ts.len(),
{
    if ts.len() > 0 {
        let rest = ts.drop_first();
        assert(forall|i: int| 0 <= i < rest.len() ==> rest[i] == ts[i + 1]);
        lemma_polling_sends_input_only(rest);
    }
}

/// Once the stop signal is seen, the poller sends exactly one `Terminate`
/// and then nothing: whatever turns follow the first one that finds the
/// signal up, the events sent are those forwarded before it and one
/// `Terminate` as the last.
pub proof fn lemma_one_terminate_then_silence(before: Seq<Turn>, seen: Turn, after: Seq<Turn>)
    requires
        forall|i: int| 0 <= i < before.len() ==> !before[i].cancelled,
        seen.cancelled,
    ensures
        turns(Poller::Polling, before.push(seen) + after) == (
            Poller::Stopped,
            turns(Poller::Polling, before).1.push(AppEvent::Terminate),
        ),
    decreases before.len(),
{
    let all = before.push(seen) + after;
    if before.len() == 0 {
        assert(all.first() == seen);
        assert(all.drop_first() =~= after);
        lemma_stopped_is_silent(after);
        assert(seq![AppEvent::Terminate] + Seq::<AppEvent>::empty() =~= Seq::<AppEvent>::empty().push(
            AppEvent::Terminate,
        ));
    } else {
        let rest = before.drop_first();
        assert(forall|i: int| 0 <= i < rest.len() ==> rest[i] == before[i + 1]);
        assert(all.first() == before.first());
        assert(all.drop_first() =~= rest.push(seen) + after);
        lemma_one_terminate_then_silence(rest, seen, after);
        let first = turn(Poller::Polling, before.first()).1;
        let tail = turns(Poller::Polling, rest).1;
        assert(first + tail.push(AppEvent::Terminate) =~= (first + tail).push(AppEvent::Terminate));
    }
}

impl Poller {
    /// A poller that has not looked at anything yet.
    pub fn new() -> (poller: Poller)
        ensures
            poller == Poller::Polling,
    {
        Poller::Polling
    }

    /// Decides the turn that begins, given whether the stop signal is up.
    pub fn decide(&mut self, cancelled: bool) -> (action: PollerAction)
        ensures
            (*final(self), action) == decision(*old(self), cancelled),
    {
        match *self {
            Poller::Stopped => PollerAction::Stop,
            Poller::Polling => {
                if cancelled {
                    *self = Poller::Stopped;
                    PollerAction::Terminate
                } else {
                    PollerAction::Poll
                }
            },
        }
    }

    /// Looks at the stop signal and decides the turn that begins. What the
    /// signal answers is not known beforehand; the decision is the one that
    /// [`Poller::decide`] makes for the answer it gave.
    pub fn next_action(&mut self, token: &Arc<CancellationToken>) -> (action: PollerAction)
        ensures
            (*final(self), action) == decision(*old(self), true) || (*final(self), action)
                == decision(*old(self), false),
    {
        let cancelled = token.is_cancelled();
        self.decide(cancelled)
    }
}

/// Classifies what the terminal delivered: a key press is forwarded as
/// input, anything else is dropped and `None` tells the caller to log it.
pub fn forward(input: TerminalEvent) -> (event: Option<AppEvent>)
    ensures
        event == forwarded(input),
{
    match input {
        TerminalEvent::Key(key) => Some(AppEvent::Input(key)),
        TerminalEvent::Other => None,
    }
}

} // verus!
