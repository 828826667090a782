use sidecar_supervisor::boot::{
    failure_event, is_over, step, BootAction, BootEvent, BootState, FailureKind,
};
use sidecar_supervisor::error::BootError;
use sidecar_supervisor::supervisor::SupervisorState;
use sidecar_supervisor::text::{blank, contains, decimal_text, split_words, white_space};

#[test]
fn terminate_twice_without_publish() {
    let mut state: SupervisorState<u32> = SupervisorState::new();
    assert!(state.is_empty());
    assert_eq!(state.terminate(), None);
    assert_eq!(state.terminate(), None);
    assert!(state.is_empty());
}

#[test]
fn terminate_twice_after_publish() {
    let mut state: SupervisorState<u32> = SupervisorState::new();
    assert_eq!(state.publish(4711), None);
    assert!(!state.is_empty());
    assert_eq!(state.terminate(), Some(4711));
    assert!(state.is_empty());
    assert_eq!(state.terminate(), None);
    assert!(state.is_empty());
}

#[test]
fn publish_overwrites() {
    let mut state: SupervisorState<u32> = SupervisorState::new();
    assert_eq!(state.publish(1), None);
    assert_eq!(state.publish(2), Some(1));
    assert_eq!(state.terminate(), Some(2));
    assert_eq!(state.terminate(), None);
}

#[test]
fn publish_after_terminate_stays_held() {
    let mut state: SupervisorState<u32> = SupervisorState::new();
    assert_eq!(state.terminate(), None);
    assert_eq!(state.publish(9), None);
    assert!(!state.is_empty());
    assert_eq!(state.terminate(), Some(9));
}

#[test]
fn clean_boot() {
    let (s, a) = step(BootState::NotStarted, BootEvent::Trigger);
    assert_eq!((s, a), (BootState::Launching, BootAction::Launch));
    let (s, a) = step(s, BootEvent::Spawned);
    assert_eq!((s, a), (BootState::AwaitingHandshake, BootAction::AwaitHandshake));
    let (s, a) = step(s, BootEvent::Handshake(4000));
    assert_eq!((s, a), (BootState::AwaitingHealth(4000), BootAction::ProbeHealth(4000)));
    let (s, a) = step(s, BootEvent::Healthy { surface_present: true });
    assert_eq!((s, a), (BootState::Ready(4000), BootAction::PublishAndNavigate(4000)));
    assert!(!is_over(s));
    let (s, a) = step(s, BootEvent::Shutdown);
    assert_eq!((s, a), (BootState::Terminated, BootAction::Terminate));
    assert!(is_over(s));
    let (s, a) = step(s, BootEvent::Shutdown);
    assert_eq!((s, a), (BootState::Terminated, BootAction::Terminate));
}

#[test]
fn each_phase_can_fail() {
    assert_eq!(
        step(BootState::Launching, BootEvent::NotFound),
        (BootState::Failed(FailureKind::BackendNotFound), BootAction::Report(FailureKind::BackendNotFound))
    );
    assert_eq!(
        step(BootState::Launching, BootEvent::SpawnRefused),
        (BootState::Failed(FailureKind::SpawnFailed), BootAction::Report(FailureKind::SpawnFailed))
    );
    assert_eq!(
        step(BootState::AwaitingHandshake, BootEvent::HandshakeTimedOut),
        (
            BootState::Failed(FailureKind::HandshakeTimeout),
            BootAction::Report(FailureKind::HandshakeTimeout)
        )
    );
    assert_eq!(
        step(BootState::AwaitingHealth(80), BootEvent::HealthTimedOut),
        (
            BootState::Failed(FailureKind::HealthCheckTimeout),
            BootAction::Report(FailureKind::HealthCheckTimeout)
        )
    );
    assert_eq!(
        step(BootState::AwaitingHealth(80), BootEvent::Healthy { surface_present: false }),
        (
            BootState::Failed(FailureKind::PresentationMissing),
            BootAction::PublishAndReport(FailureKind::PresentationMissing)
        )
    );
}

#[test]
fn failed_is_terminal() {
    let failed = BootState::Failed(FailureKind::SpawnFailed);
    for event in [
        BootEvent::Trigger,
        BootEvent::Spawned,
        BootEvent::NotFound,
        BootEvent::SpawnRefused,
        BootEvent::Handshake(1),
        BootEvent::HandshakeTimedOut,
        BootEvent::Healthy { surface_present: true },
        BootEvent::HealthTimedOut,
    ] {
        assert_eq!(step(failed, event), (failed, BootAction::Nothing));
    }
    assert_eq!(step(failed, BootEvent::Shutdown), (failed, BootAction::Terminate));
    assert!(is_over(failed));
}

#[test]
fn events_out_of_turn_are_ignored() {
    assert_eq!(
        step(BootState::NotStarted, BootEvent::Spawned),
        (BootState::NotStarted, BootAction::Nothing)
    );
    assert_eq!(
        step(BootState::Launching, BootEvent::Handshake(1)),
        (BootState::Launching, BootAction::Nothing)
    );
    assert_eq!(
        step(BootState::Ready(1), BootEvent::Trigger),
        (BootState::Ready(1), BootAction::Nothing)
    );
    assert_eq!(
        step(BootState::AwaitingHandshake, BootEvent::Healthy { surface_present: true }),
        (BootState::AwaitingHandshake, BootAction::Nothing)
    );
}

#[test]
fn shutdown_during_boot_terminates_and_boot_goes_on() {
    assert_eq!(
        step(BootState::NotStarted, BootEvent::Shutdown),
        (BootState::NotStarted, BootAction::Terminate)
    );
    assert_eq!(
        step(BootState::AwaitingHealth(5), BootEvent::Shutdown),
        (BootState::AwaitingHealth(5), BootAction::Terminate)
    );
}

#[test]
fn error_kinds() {
    assert_eq!(BootError::BackendNotFound(vec![]).kind(), FailureKind::BackendNotFound);
    assert_eq!(BootError::SpawnFailed("denied".to_string()).kind(), FailureKind::SpawnFailed);
    assert_eq!(
        BootError::HandshakeTimeout("/tmp/hudson_port.json".to_string()).kind(),
        FailureKind::HandshakeTimeout
    );
    assert_eq!(
        BootError::HealthCheckTimeout("http://127.0.0.1:1/healthz".to_string()).kind(),
        FailureKind::HealthCheckTimeout
    );
    assert_eq!(BootError::PresentationMissing.kind(), FailureKind::PresentationMissing);
}

#[test]
fn white_space_is_what_std_says() {
    let mut code: u32 = 0;
    while code <= 0x10ffff {
        if let Some(c) = char::from_u32(code) {
            assert_eq!(white_space(c), c.is_whitespace(), "U+{:04X}", code);
        }
        code += 1;
    }
}

#[test]
fn words_are_split_as_std_splits() {
    for text in [
        "",
        " ",
        "a",
        " a",
        "a ",
        "a b",
        "  start  --port\t4000\n",
        "x\u{a0}y\u{3000}z",
        "\u{2003}\u{e9}t\u{e9}  na\u{ef}ve",
        "\n\n\n",
    ] {
        let expected: Vec<String> = text.split_whitespace().map(String::from).collect();
        assert_eq!(split_words(text), expected, "{:?}", text);
        assert_eq!(blank(text), text.trim().is_empty(), "{:?}", text);
    }
    assert_eq!(split_words(" a  bc "), vec!["a".to_string(), "bc".to_string()]);
}

#[test]
fn search() {
    assert!(contains("abc", ""));
    assert!(contains("", ""));
    assert!(!contains("", "a"));
    assert!(contains("abc", "abc"));
    assert!(contains("abc", "bc"));
    assert!(contains("aab", "ab"));
    assert!(!contains("abc", "abcd"));
    assert!(!contains("abc", "ac"));
    assert!(contains("\u{e9}burrito_out\u{e9}", "burrito_out"));
}

#[test]
fn numerals() {
    assert_eq!(decimal_text(0), "0");
    assert_eq!(decimal_text(9), "9");
    assert_eq!(decimal_text(10), "10");
    assert_eq!(decimal_text(4000), "4000");
    assert_eq!(decimal_text(12345), "12345");
    assert_eq!(decimal_text(65535), "65535");
    for n in [1u16, 99, 100, 101, 1000, 9999, 10000, 60789] {
        assert_eq!(decimal_text(n), n.to_string());
    }
}

#[test]
fn failures_are_reported_by_their_events() {
    assert_eq!(failure_event(FailureKind::BackendNotFound), BootEvent::NotFound);
    assert_eq!(failure_event(FailureKind::SpawnFailed), BootEvent::SpawnRefused);
    assert_eq!(failure_event(FailureKind::HandshakeTimeout), BootEvent::HandshakeTimedOut);
    assert_eq!(failure_event(FailureKind::HealthCheckTimeout), BootEvent::HealthTimedOut);
    assert_eq!(
        failure_event(FailureKind::PresentationMissing),
        BootEvent::Healthy { surface_present: false }
    );
}

#[test]
fn many_terminates_take_the_handle_once() {
    for calls in 2..6usize {
        let mut state: SupervisorState<u32> = SupervisorState::new();
        assert_eq!(state.publish(77), None);
        let taken: Vec<Option<u32>> = (0..calls).map(|_| state.terminate()).collect();
        assert_eq!(taken[0], Some(77));
        assert!(taken[1..].iter().all(|t| t.is_none()));
        assert_eq!(taken.iter().filter(|t| t.is_some()).count(), 1);
        assert!(state.is_empty());
    }
}
