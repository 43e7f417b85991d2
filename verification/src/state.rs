//! The explorer's state and the dispatch table that events drive it through.

use crate::event::{AppEvent, Key};
use std::sync::Arc;
use tokio_util::sync::CancellationToken;
use vstd::prelude::*;

verus! {

/// The operating mode: it decides which key bindings are shown as active.
#[derive(Debug, Clone, Copy, PartialEq, Eq, Structural)]
pub enum Mode {
    Browse,
    Insert,
}

/// The state of the application. Only the application loop changes it.
#[derive(Debug, PartialEq, Eq)]
pub struct Explorer {
    /// Set once the application loop is to stop.
    pub exit: bool,
    /// The current mode.
    pub mode: Mode,
    /// The directory being explored.
    pub cwd: String,
}

/// An [`Explorer`] as a mathematical value.
pub struct ExplorerView {
    pub exit: bool,
    pub mode: Mode,
    pub cwd: Seq<char>,
}

impl View for Explorer {
    type V = ExplorerView;

    open spec fn view(&self) -> ExplorerView {
        ExplorerView { exit: self.exit, mode: self.mode, cwd: self.cwd@ }
    }
}

/// What handling one event amounted to, besides the new state.
#[derive(Debug, Clone, Copy, PartialEq, Eq, Structural)]
pub enum Outcome {
    /// The event was applied to the state and nothing else was done.
    Applied,
    /// The event was applied and the stop signal was raised.
    SignalRaised,
    /// The dispatch table has no entry for the event: the state is untouched
    /// and the caller owes the user one diagnostic.
    Unsupported,
}

/// What the application loop does in the turn that begins.
#[derive(Debug, Clone, Copy, PartialEq, Eq, Structural)]
pub enum LoopAction {
    /// Draw the state, wait for the event channel to answer, and hand the
    /// answer to [`Explorer::handle_received`].
    DrawAndReceive,
    /// Leave the loop without drawing again.
    Leave,
}

/// The state at startup.
pub open spec fn initial(cwd: Seq<char>) -> ExplorerView {
    ExplorerView { exit: false, mode: Mode::Browse, cwd }
}

/// The state once the loop has been told to stop.
pub open spec fn finished(s: ExplorerView) -> ExplorerView {
    ExplorerView { exit: true, ..s }
}

/// The bindings of the character keys: `i` enters insert mode, `q` quits.
pub open spec fn apply_char(s: ExplorerView, ch: char) -> ExplorerView {
    if ch == 'i' {
        ExplorerView { mode: Mode::Insert, ..s }
    } else if ch == 'q' {
        finished(s)
    } else {
        s
    }
}

/// The bindings of all keys: escape returns to browsing from any mode, a
/// character goes by [`apply_char`], every other key is inert.
pub open spec fn apply_key(s: ExplorerView, key: Key) -> ExplorerView {
    match key {
        Key::Escape => ExplorerView { mode: Mode::Browse, ..s },
        Key::Char(ch) => apply_char(s, ch),
        Key::Other => s,
    }
}

/// The dispatch table: the state after one event.
pub open spec fn apply_event(s: ExplorerView, event: AppEvent) -> ExplorerView {
    match event {
        AppEvent::Input(key) => apply_key(s, key),
        AppEvent::Terminate => finished(s),
        AppEvent::Unrecognized => s,
    }
}

/// The state after one answer of the event channel. A closed channel counts
/// as a `Terminate` that was never sent.
pub open spec fn apply_received(s: ExplorerView, received: Option<AppEvent>) -> ExplorerView {
    match received {
        Some(event) => apply_event(s, event),
        None => finished(s),
    }
}

/// The state after a sequence of events, applied first to last.
pub open spec fn apply_events(s: ExplorerView, events: Seq<AppEvent>) -> ExplorerView
    decreases events.len(),
{
    if events.len() == 0 {
        s
    } else {
        apply_event(apply_events(s, events.drop_last()), events.last())
    }
}

/// The application loop goes on until the exit flag is up.
pub open spec fn loop_action(s: ExplorerView) -> LoopAction {
    if s.exit {
        LoopAction::Leave
    } else {
        LoopAction::DrawAndReceive
    }
}

/// The one event that raises the stop signal: the quit key.
pub open spec fn raises_signal(event: AppEvent) -> bool {
    event == AppEvent::Input(Key::Char('q'))
}

/// What handling `event` amounts to.
pub open spec fn outcome_of(event: AppEvent) -> Outcome {
    if raises_signal(event) {
        Outcome::SignalRaised
    } else if event == AppEvent::Unrecognized {
        Outcome::Unsupported
    } else {
        Outcome::Applied
    }
}

/// What handling one answer of the event channel amounts to.
pub open spec fn outcome_of_received(received: Option<AppEvent>) -> Outcome {
    match received {
        Some(event) => outcome_of(event),
        None => Outcome::Applied,
    }
}

impl Explorer {
    /// The explorer at startup: browsing `cwd`, not about to exit.
    pub fn new(cwd: String) -> (explorer: Explorer)
        ensures
            explorer@ == initial(cwd@),
    {
        Explorer { exit: false, mode: Mode::Browse, cwd }
    }

    /// Tells the application loop to stop after the current iteration.
    pub fn finish(&mut self)
        ensures
            final(self)@ == finished(old(self)@),
    {
        self.exit = true;
    }

    /// Decides the turn of the application loop that begins.
    pub fn next_action(&self) -> (action: LoopAction)
        ensures
            action == loop_action(self@),
    {
        if self.exit {
            LoopAction::Leave
        } else {
            LoopAction::DrawAndReceive
        }
    }

    /// Applies a character key. On `q` it also raises the stop signal, so
    /// that the input poller unwinds; the result says whether it did.
    pub fn handle_char(&mut self, ch: char, token: &Arc<CancellationToken>) -> (raised: bool)
        ensures
            final(self)@ == apply_char(old(self)@, ch),
            raised <==> ch == 'q',
    {
        if ch == 'i' {
            self.mode = Mode::Insert;
            false
        } else if ch == 'q' {
            self.finish();
            token.cancel();
            true
        } else {
            false
        }
    }

    /// Applies one event by the dispatch table and reports what that
    /// amounted to. An event without an entry leaves the state as it was.
    pub fn handle_top_level_event(
        &mut self,
        app_event: AppEvent,
        token: &Arc<CancellationToken>,
    ) -> (outcome: Outcome)
        ensures
            final(self)@ == apply_event(old(self)@, app_event),
            outcome == outcome_of(app_event),
    {
        match app_event {
            AppEvent::Input(Key::Escape) => {
                self.mode = Mode::Browse;
                Outcome::Applied
            },
            AppEvent::Input(Key::Char(ch)) => {
                if self.handle_char(ch, token) {
                    Outcome::SignalRaised
                } else {
                    Outcome::Applied
                }
            },
            AppEvent::Input(Key::Other) => Outcome::Applied,
            AppEvent::Terminate => {
                self.finish();
                Outcome::Applied
            },
            AppEvent::Unrecognized => Outcome::Unsupported,
        }
    }

    /// The second half of a turn of the application loop, after the frame
    /// has been drawn: applies what the event channel answered. `None` means
    /// that the channel is closed, which ends the loop without an error.
    pub fn handle_received(
        &mut self,
        received: Option<AppEvent>,
        token: &Arc<CancellationToken>,
    ) -> (outcome: Outcome)
        ensures
            final(self)@ == apply_received(old(self)@, received),
            outcome == outcome_of_received(received),
    {
        match received {
            Some(app_event) => self.handle_top_level_event(app_event, token),
            None => {
                self.finish();
                Outcome::Applied
            },
        }
    }
}

/// The key presses `keys` as the events that the input poller sends for them.
pub open spec fn key_events(keys: Seq<Key>) -> Seq<AppEvent> {
    Seq::new(keys.len(), |i: int| AppEvent::Input(keys[i]))
}

/// Escape leads back to browsing, whatever the state was and whatever events
/// came before.
pub proof fn lemma_escape_returns_to_browse(s: ExplorerView, events: Seq<AppEvent>)
    ensures
        apply_event(s, AppEvent::Input(Key::Escape)).mode == Mode::Browse,
        apply_events(s, events.push(AppEvent::Input(Key::Escape))).mode == Mode::Browse,
{
    let all = events.push(AppEvent::Input(Key::Escape));
    assert(all.last() == AppEvent::Input(Key::Escape));
}

/// Key presses alone end the loop only through `q`: as long as none of the
/// keys is `q`, the exit flag stays down.
pub proof fn lemma_exit_needs_quit(s: ExplorerView, keys: Seq<Key>)
    requires
        !s.exit,
        forall|i: int| 0 <= i < keys.len() ==> keys[i] != Key::Char('q'),
    ensures
        !apply_events(s, key_events(keys)).exit,
    decreases keys.len(),
{
    if keys.len() > 0 {
        let events = key_events(keys);
        assert(events.drop_last() =~= key_events(keys.drop_last()));
        assert(events.last() == AppEvent::Input(keys[keys.len() - 1]));
        lemma_exit_needs_quit(s, keys.drop_last());
    }
}

/// The quit key sets the exit flag, in every mode and whatever the state
/// was, and handling it is reported as having raised the stop signal.
/// Pressing it again leaves the state as it is and is reported the same way.
pub proof fn lemma_quit_is_idempotent(s: ExplorerView)
    ensures
        ({
            let quit = AppEvent::Input(Key::Char('q'));
            let once = apply_event(s, quit);
            &&& once == finished(s)
            &&& once.exit
            &&& outcome_of(quit) == Outcome::SignalRaised
            &&& apply_event(once, quit) == once
        }),
{
}

/// No event lowers the exit flag again, and none touches the directory.
pub proof fn lemma_exit_persists(s: ExplorerView, events: Seq<AppEvent>)
    ensures
        s.exit ==> apply_events(s, events).exit,
        apply_events(s, events).cwd == s.cwd,
    decreases events.len(),
{
    if events.len() > 0 {
        lemma_exit_persists(s, events.drop_last());
    }
}

/// Only the quit key raises the stop signal. `Terminate` and a closed channel
/// end the loop as well, but leave the signal alone.
pub proof fn lemma_only_quit_raises_signal(s: ExplorerView, received: Option<AppEvent>)
    ensures
        outcome_of_received(received) == Outcome::SignalRaised <==> received == Some(
            AppEvent::Input(Key::Char('q')),
        ),
        apply_received(s, None) == finished(s),
        apply_received(s, Some(AppEvent::Terminate)) == finished(s),
        outcome_of_received(None) == Outcome::Applied,
        outcome_of_received(Some(AppEvent::Terminate)) == Outcome::Applied,
{
}

/// The state after a run of answers of the event channel, applied first to
/// last.
pub open spec fn apply_answers(s: ExplorerView, answers: Seq<Option<AppEvent>>) -> ExplorerView
    decreases answers.len(),
{
    if answers.len() == 0 {
        s
    } else {
        apply_answers(apply_received(s, answers.first()), answers.drop_first())
    }
}

/// The application loop over the answers of the event channel: the states
/// that it draws, in order, and the state that it ends in. Each turn draws
/// the state first and applies the next answer after; the loop is left as
/// soon as the exit flag is up.
pub open spec fn loop_run(s: ExplorerView, answers: Seq<Option<AppEvent>>) -> (
    ExplorerView,
    Seq<ExplorerView>,
)
    decreases answers.len(),
{
    if loop_action(s) == LoopAction::Leave || answers.len() == 0 {
        (s, Seq::empty())
    } else {
        let (end, drawn) = loop_run(apply_received(s, answers.first()), answers.drop_first());
        (end, seq![s] + drawn)
    }
}

/// The application loop draws one frame for each answer that it consumes,
/// and each frame shows the state before that answer: the frame with index
/// `j` shows the start state after the first `j` answers. The loop never
/// draws a state whose exit flag is up, it ends in the start state after as
/// many answers as it drew frames, and it stops short of the answers only
/// with the exit flag up.
pub proof fn lemma_loop_draws_before_each_answer(s: ExplorerView, answers: Seq<Option<AppEvent>>)
    ensures
        loop_run(s, answers).1.len() <= answers.len(),
        forall|j: int|
            0 <= j < loop_run(s, answers).1.len() ==> #[trigger] loop_run(s, answers).1[j]
                == apply_answers(s, answers.take(j)),
        forall|j: int|
            0 <= j < loop_run(s, answers).1.len() ==> !(#[trigger] loop_run(s, answers).1[j]).exit,
        loop_run(s, answers).0 == apply_answers(
            s,
            answers.take(loop_run(s, answers).1.len() as int),
        ),
        loop_run(s, answers).1.len() < answers.len() ==> loop_run(s, answers).0.exit,
        s.exit ==> loop_run(s, answers) == (s, Seq::<ExplorerView>::empty()),
    decreases answers.len(),
{
    let all = loop_run(s, answers).1;
    if !s.exit && answers.len() > 0 {
        let next = apply_received(s, answers.first());
        let rest = answers.drop_first();
        lemma_loop_draws_before_each_answer(next, rest);
        let drawn = loop_run(next, rest).1;
        assert(all == seq![s] + drawn);
        assert forall|j: int| 0 <= j < all.len() implies #[trigger] all[j] == apply_answers(
            s,
            answers.take(j),
        ) && !all[j].exit by {
            if j > 0 {
                assert(all[j] == drawn[j - 1]);
                assert(answers.take(j).first() == answers.first());
                assert(answers.take(j).drop_first() =~= rest.take(j - 1));
            } else {
                assert(answers.take(0).len() == 0);
            }
        }
        let n = all.len() as int;
        assert(answers.take(n).first() == answers.first());
        assert(answers.take(n).drop_first() =~= rest.take(n - 1));
    } else {
        assert(answers.take(0).len() == 0);
    }
}

} // verus!
