use explorer::{AppEvent, Explorer, Key, LoopAction, Mode, Outcome};
use std::sync::Arc;
use tokio_util::sync::CancellationToken;

fn fresh(cwd: &str) -> (Explorer, Arc<CancellationToken>) {
    (Explorer::new(cwd.to_string()), Arc::new(CancellationToken::new()))
}

#[test]
fn new_starts_browsing_without_exit() {
    let explorer = Explorer::new("/tmp".to_string());
    assert!(!explorer.exit);
    assert_eq!(explorer.mode, Mode::Browse);
    assert_eq!(explorer.cwd, "/tmp");
}

#[test]
fn finish_sets_exit_and_nothing_else() {
    let mut explorer = Explorer::new("/home/user".to_string());
    explorer.mode = Mode::Insert;
    explorer.finish();
    assert_eq!(
        explorer,
        Explorer { exit: true, mode: Mode::Insert, cwd: "/home/user".to_string() }
    );
    explorer.finish();
    assert!(explorer.exit);
}

#[test]
fn insert_escape_quit_scenario() {
    let (mut explorer, token) = fresh("/tmp");
    assert_eq!(
        explorer,
        Explorer { exit: false, mode: Mode::Browse, cwd: "/tmp".to_string() }
    );

    let outcome = explorer.handle_top_level_event(AppEvent::Input(Key::Char('i')), &token);
    assert_eq!(outcome, Outcome::Applied);
    assert_eq!(explorer.mode, Mode::Insert);
    assert!(!explorer.exit);
    assert!(!token.is_cancelled());

    let outcome = explorer.handle_top_level_event(AppEvent::Input(Key::Escape), &token);
    assert_eq!(outcome, Outcome::Applied);
    assert_eq!(explorer.mode, Mode::Browse);
    assert!(!explorer.exit);
    assert!(!token.is_cancelled());

    let outcome = explorer.handle_top_level_event(AppEvent::Input(Key::Char('q')), &token);
    assert_eq!(outcome, Outcome::SignalRaised);
    assert!(explorer.exit);
    assert_eq!(explorer.mode, Mode::Browse);
    assert_eq!(explorer.cwd, "/tmp");
    assert!(token.is_cancelled());
}

#[test]
fn escape_returns_to_browse_from_any_mode() {
    let (mut explorer, token) = fresh("/");
    explorer.handle_top_level_event(AppEvent::Input(Key::Escape), &token);
    assert_eq!(explorer.mode, Mode::Browse);

    explorer.mode = Mode::Insert;
    explorer.handle_top_level_event(AppEvent::Input(Key::Escape), &token);
    assert_eq!(explorer.mode, Mode::Browse);

    let keys = [Key::Char('i'), Key::Other, Key::Char('x'), Key::Char('i'), Key::Escape];
    for key in keys {
        explorer.handle_top_level_event(AppEvent::Input(key), &token);
    }
    assert_eq!(explorer.mode, Mode::Browse);
    assert!(!explorer.exit);
    assert!(!token.is_cancelled());
}

#[test]
fn keys_other_than_q_never_set_exit() {
    let (mut explorer, token) = fresh("/tmp");
    let mut keys = vec![Key::Escape, Key::Other];
    for ch in "abcdefghijklmnoprstuvwxyzQI 0123456789\n\t".chars() {
        keys.push(Key::Char(ch));
    }
    for key in keys {
        let outcome = explorer.handle_top_level_event(AppEvent::Input(key), &token);
        assert_eq!(outcome, Outcome::Applied);
        assert!(!explorer.exit);
    }
    assert!(!token.is_cancelled());
    assert_eq!(explorer.cwd, "/tmp");
}

#[test]
fn quit_works_in_insert_mode_and_is_idempotent() {
    let (mut explorer, token) = fresh("/tmp");
    explorer.handle_top_level_event(AppEvent::Input(Key::Char('i')), &token);
    assert_eq!(explorer.mode, Mode::Insert);

    let outcome = explorer.handle_top_level_event(AppEvent::Input(Key::Char('q')), &token);
    assert_eq!(outcome, Outcome::SignalRaised);
    assert_eq!(
        explorer,
        Explorer { exit: true, mode: Mode::Insert, cwd: "/tmp".to_string() }
    );
    assert!(token.is_cancelled());

    let outcome = explorer.handle_top_level_event(AppEvent::Input(Key::Char('q')), &token);
    assert_eq!(outcome, Outcome::SignalRaised);
    assert_eq!(
        explorer,
        Explorer { exit: true, mode: Mode::Insert, cwd: "/tmp".to_string() }
    );
    assert!(token.is_cancelled());
}

#[test]
fn quit_reaches_every_holder_of_the_signal() {
    let (mut explorer, token) = fresh("/tmp");
    let pollers_handle = Arc::clone(&token);
    let clone = CancellationToken::clone(&token);
    explorer.handle_top_level_event(AppEvent::Input(Key::Char('q')), &token);
    assert!(pollers_handle.is_cancelled());
    assert!(clone.is_cancelled());
}

#[test]
fn inert_keys_change_nothing() {
    let (mut explorer, token) = fresh("/var/log");
    explorer.mode = Mode::Insert;
    for key in [Key::Other, Key::Char('x'), Key::Char('I'), Key::Char('Q'), Key::Char(' ')] {
        let outcome = explorer.handle_top_level_event(AppEvent::Input(key), &token);
        assert_eq!(outcome, Outcome::Applied);
        assert_eq!(
            explorer,
            Explorer { exit: false, mode: Mode::Insert, cwd: "/var/log".to_string() }
        );
    }
    assert!(!token.is_cancelled());
}

#[test]
fn i_enters_insert_from_any_mode() {
    let (mut explorer, token) = fresh("/tmp");
    explorer.handle_top_level_event(AppEvent::Input(Key::Char('i')), &token);
    assert_eq!(explorer.mode, Mode::Insert);
    explorer.handle_top_level_event(AppEvent::Input(Key::Char('i')), &token);
    assert_eq!(explorer.mode, Mode::Insert);
    assert!(!explorer.exit);
}

#[test]
fn terminate_sets_exit_without_raising_the_signal() {
    let (mut explorer, token) = fresh("/tmp");
    explorer.mode = Mode::Insert;
    let outcome = explorer.handle_top_level_event(AppEvent::Terminate, &token);
    assert_eq!(outcome, Outcome::Applied);
    assert_eq!(
        explorer,
        Explorer { exit: true, mode: Mode::Insert, cwd: "/tmp".to_string() }
    );
    assert!(!token.is_cancelled());
}

#[test]
fn unrecognized_event_is_reported_and_changes_nothing() {
    let (mut explorer, token) = fresh("/tmp");
    let outcome = explorer.handle_top_level_event(AppEvent::Unrecognized, &token);
    assert_eq!(outcome, Outcome::Unsupported);
    assert_eq!(
        explorer,
        Explorer { exit: false, mode: Mode::Browse, cwd: "/tmp".to_string() }
    );
    assert!(!token.is_cancelled());

    explorer.mode = Mode::Insert;
    let outcome = explorer.handle_received(Some(AppEvent::Unrecognized), &token);
    assert_eq!(outcome, Outcome::Unsupported);
    assert_eq!(
        explorer,
        Explorer { exit: false, mode: Mode::Insert, cwd: "/tmp".to_string() }
    );

    // The loop goes on: the next event is handled as usual.
    let outcome = explorer.handle_received(Some(AppEvent::Input(Key::Escape)), &token);
    assert_eq!(outcome, Outcome::Applied);
    assert_eq!(explorer.mode, Mode::Browse);
}

#[test]
fn closed_channel_ends_the_loop_without_error() {
    let (mut explorer, token) = fresh("/tmp");
    let outcome = explorer.handle_received(None, &token);
    assert_eq!(outcome, Outcome::Applied);
    assert_eq!(
        explorer,
        Explorer { exit: true, mode: Mode::Browse, cwd: "/tmp".to_string() }
    );
    assert!(!token.is_cancelled());
}

#[test]
fn received_events_go_through_the_dispatch_table() {
    let (mut explorer, token) = fresh("/tmp");
    assert_eq!(
        explorer.handle_received(Some(AppEvent::Input(Key::Char('i'))), &token),
        Outcome::Applied
    );
    assert_eq!(explorer.mode, Mode::Insert);
    assert_eq!(explorer.handle_received(Some(AppEvent::Terminate), &token), Outcome::Applied);
    assert!(explorer.exit);
    assert!(!token.is_cancelled());

    let (mut explorer, token) = fresh("/tmp");
    assert_eq!(
        explorer.handle_received(Some(AppEvent::Input(Key::Char('q'))), &token),
        Outcome::SignalRaised
    );
    assert!(explorer.exit);
    assert!(token.is_cancelled());
}

#[test]
fn handle_char_says_whether_it_raised_the_signal() {
    let (mut explorer, token) = fresh("/tmp");
    assert!(!explorer.handle_char('i', &token));
    assert_eq!(explorer.mode, Mode::Insert);
    assert!(!explorer.exit);
    assert!(!explorer.handle_char('z', &token));
    assert_eq!(explorer.mode, Mode::Insert);
    assert!(!token.is_cancelled());
    assert!(explorer.handle_char('q', &token));
    assert!(explorer.exit);
    assert!(token.is_cancelled());
    assert!(explorer.handle_char('q', &token));
    assert!(explorer.exit);
    assert!(token.is_cancelled());
}

#[test]
fn loop_goes_on_until_exit() {
    let (mut explorer, token) = fresh("/tmp");
    assert_eq!(explorer.next_action(), LoopAction::DrawAndReceive);
    explorer.handle_received(Some(AppEvent::Input(Key::Char('i'))), &token);
    assert_eq!(explorer.next_action(), LoopAction::DrawAndReceive);
    explorer.handle_received(Some(AppEvent::Unrecognized), &token);
    assert_eq!(explorer.next_action(), LoopAction::DrawAndReceive);
    explorer.handle_received(Some(AppEvent::Input(Key::Char('q'))), &token);
    assert_eq!(explorer.next_action(), LoopAction::Leave);
    explorer.handle_received(Some(AppEvent::Input(Key::Escape)), &token);
    assert_eq!(explorer.next_action(), LoopAction::Leave);
}

#[test]
fn loop_consumes_nothing_after_exit() {
    let (mut explorer, token) = fresh("/tmp");
    let answers = [
        Some(AppEvent::Input(Key::Char('i'))),
        Some(AppEvent::Input(Key::Other)),
        None,
        Some(AppEvent::Input(Key::Escape)),
        Some(AppEvent::Input(Key::Char('q'))),
    ];
    let mut drawn = Vec::new();
    let mut answers = answers.iter();
    while let LoopAction::DrawAndReceive = explorer.next_action() {
        drawn.push((explorer.exit, explorer.mode));
        match answers.next() {
            Some(answer) => explorer.handle_received(*answer, &token),
            None => break,
        };
    }
    assert_eq!(drawn, vec![(false, Mode::Browse), (false, Mode::Insert), (false, Mode::Insert)]);
    assert_eq!(
        explorer,
        Explorer { exit: true, mode: Mode::Insert, cwd: "/tmp".to_string() }
    );
    assert_eq!(answers.count(), 2);
    assert!(!token.is_cancelled());
}
