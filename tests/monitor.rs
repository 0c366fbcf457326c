use l5p_kbl::frame::build_control_buffer;
use l5p_kbl::monitor::{select_matcher, Session, SessionAction, SessionEvent, SessionState};
use l5p_kbl::params::{Effect, Parameters};

fn config(effect: Effect) -> Parameters {
    Parameters::new(effect, 1, 1, (0, 0), vec![(255, 0, 0)]).unwrap()
}

fn matchers() -> Vec<(String, Parameters)> {
    vec![("enabled".to_string(), config(Effect::Static)), ("en".to_string(), config(Effect::Hue))]
}

fn running() -> Session {
    let mut s = Session::new(matchers());
    assert!(matches!(s.handle(SessionEvent::Spawned), SessionAction::Idle));
    assert_eq!(s.state, SessionState::Running);
    s
}

#[test]
fn first_matcher_wins() {
    assert_eq!(select_matcher(&matchers(), "'enabled'"), Some(0));
}

#[test]
fn later_matcher_when_first_absent() {
    assert_eq!(select_matcher(&matchers(), "'disabled-on-external-mouse' and en"), Some(1));
}

#[test]
fn no_matcher() {
    assert_eq!(select_matcher(&matchers(), "disabled"), None);
    assert_eq!(select_matcher(&vec![], "enabled"), None);
}

#[test]
fn empty_text_matches_every_line() {
    let ms = vec![(String::new(), config(Effect::Off))];
    assert_eq!(select_matcher(&ms, ""), Some(0));
}

#[test]
fn matching_line_asks_for_first_frame() {
    let mut s = running();
    match s.handle(SessionEvent::Line("send-events: 'enabled'".to_string())) {
        SessionAction::Send(frame) => assert_eq!(frame, build_control_buffer(&config(Effect::Static))),
        other => panic!("unexpected action {:?}", other),
    }
    assert_eq!(s.state, SessionState::Running);
}

#[test]
fn unmatched_and_unreadable_lines_do_nothing() {
    let mut s = running();
    assert!(matches!(s.handle(SessionEvent::Line("nothing".to_string())), SessionAction::Idle));
    assert!(matches!(s.handle(SessionEvent::Unreadable), SessionAction::Idle));
    assert_eq!(s.state, SessionState::Running);
}

#[test]
fn natural_exit_then_terminate() {
    let mut s = running();
    assert!(matches!(s.handle(SessionEvent::EndOfStream), SessionAction::Idle));
    assert_eq!(s.state, SessionState::Exited);
    assert!(matches!(s.handle(SessionEvent::TerminateRequested), SessionAction::Idle));
    assert_eq!(s.state, SessionState::Exited);
}

#[test]
fn terminate_running_kills() {
    let mut s = running();
    assert!(matches!(s.handle(SessionEvent::TerminateRequested), SessionAction::Kill));
    assert_eq!(s.state, SessionState::Terminated);
    assert!(matches!(s.handle(SessionEvent::Line("enabled".to_string())), SessionAction::Idle));
}

#[test]
fn terminate_before_start_kills_nothing() {
    let mut s = Session::new(matchers());
    assert!(matches!(s.handle(SessionEvent::TerminateRequested), SessionAction::Idle));
    assert_eq!(s.state, SessionState::Terminated);
}

#[test]
fn send_failure_keeps_watching() {
    let mut s = running();
    let first = s.handle(SessionEvent::Line("enabled".to_string()));
    assert!(matches!(first, SessionAction::Send(_)));
    assert!(matches!(s.handle(SessionEvent::SendFailed), SessionAction::ReportSendFailure));
    assert_eq!(s.state, SessionState::Running);
    match s.handle(SessionEvent::Line("enabled".to_string())) {
        SessionAction::Send(frame) => assert_eq!(frame, build_control_buffer(&config(Effect::Static))),
        other => panic!("unexpected action {:?}", other),
    }
}

#[test]
fn lines_before_start_are_ignored() {
    let mut s = Session::new(matchers());
    assert!(matches!(s.handle(SessionEvent::Line("enabled".to_string())), SessionAction::Idle));
    assert!(matches!(s.handle(SessionEvent::EndOfStream), SessionAction::Idle));
    assert_eq!(s.state, SessionState::Starting);
}
