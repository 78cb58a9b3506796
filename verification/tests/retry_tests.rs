use ya_etcd_rs::error::Error;
use ya_etcd_rs::retry::{RetryAction, RetryEvent, RetryPhase, RetryState, MAX_RETRY};
use ya_etcd_rs::status::FailureClass;

fn unavailable() -> tonic::Status {
    tonic::Status::new(tonic::Code::Unavailable, "no member reachable")
}

fn unauthenticated() -> tonic::Status {
    tonic::Status::new(tonic::Code::Unauthenticated, "invalid auth token")
}

fn feed(state: &mut RetryState, event: RetryEvent) -> RetryAction {
    assert!(state.accepts(&event));
    state.step(event)
}

#[test]
fn retry_bound_is_three() {
    assert_eq!(MAX_RETRY, 3);
}

#[test]
fn success_on_first_attempt_is_delivered() {
    let mut s = RetryState::new();
    assert_eq!(s.attempts(), 0);
    assert!(matches!(feed(&mut s, RetryEvent::Start), RetryAction::Attempt));
    assert_eq!(s.attempts(), 1);
    assert!(matches!(feed(&mut s, RetryEvent::Succeeded), RetryAction::Deliver));
    assert!(s.is_finished());
    assert_eq!(s.attempts(), 1);
}

#[test]
fn always_unavailable_exhausts_exactly_three_attempts() {
    let mut s = RetryState::new();
    let mut attempts = 0;
    let mut action = feed(&mut s, RetryEvent::Start);
    let mut rounds = 0;
    loop {
        rounds += 1;
        assert!(rounds < 100);
        match action {
            RetryAction::Attempt => {
                attempts += 1;
                action = feed(&mut s, RetryEvent::Failed(unavailable()));
            }
            RetryAction::Abort(e) => {
                assert!(matches!(e, Error::ExecuteFailed));
                break;
            }
            other => panic!("unexpected action {:?}", other),
        }
    }
    assert_eq!(attempts, 3);
    assert_eq!(s.attempts(), 3);
    assert!(s.is_finished());
}

#[test]
fn expired_token_is_refreshed_and_the_call_succeeds() {
    let mut s = RetryState::new();
    assert!(matches!(feed(&mut s, RetryEvent::Start), RetryAction::Attempt));
    assert!(matches!(feed(&mut s, RetryEvent::Failed(unauthenticated())), RetryAction::Refresh));
    assert_eq!(s.phase, RetryPhase::Refreshing);
    assert!(matches!(feed(&mut s, RetryEvent::Refreshed), RetryAction::Attempt));
    assert_eq!(s.attempts(), 2);
    assert!(matches!(feed(&mut s, RetryEvent::Succeeded), RetryAction::Deliver));
    assert!(s.is_finished());
}

#[test]
fn hard_failure_returns_after_one_attempt() {
    let codes = vec![
        tonic::Code::InvalidArgument,
        tonic::Code::PermissionDenied,
        tonic::Code::NotFound,
        tonic::Code::DeadlineExceeded,
        tonic::Code::ResourceExhausted,
        tonic::Code::Internal,
        tonic::Code::Unknown,
    ];
    for code in codes {
        let mut s = RetryState::new();
        assert!(matches!(feed(&mut s, RetryEvent::Start), RetryAction::Attempt));
        let action = feed(&mut s, RetryEvent::Failed(tonic::Status::new(code, "denied")));
        match action {
            RetryAction::Abort(Error::Response(status)) => {
                assert_eq!(status.code(), code);
                assert_eq!(status.message(), "denied");
            }
            other => panic!("unexpected action {:?}", other),
        }
        assert_eq!(s.attempts(), 1);
        assert!(s.is_finished());
        assert!(!s.accepts(&RetryEvent::Start));
        assert!(!s.accepts(&RetryEvent::Succeeded));
        assert!(!s.accepts(&RetryEvent::Refreshed));
    }
}

#[test]
fn refresh_failure_is_surfaced() {
    let mut s = RetryState::new();
    feed(&mut s, RetryEvent::Start);
    feed(&mut s, RetryEvent::Failed(unauthenticated()));
    let action = feed(
        &mut s,
        RetryEvent::RefreshFailed(Error::ParseMetadataToken("failed to parse metadata value".to_string())),
    );
    match action {
        RetryAction::Abort(Error::ParseMetadataToken(text)) => {
            assert_eq!(text, "failed to parse metadata value");
        }
        other => panic!("unexpected action {:?}", other),
    }
    assert!(s.is_finished());
    assert_eq!(s.attempts(), 1);
}

#[test]
fn unauthenticated_on_the_last_attempt_refreshes_then_exhausts() {
    let mut s = RetryState::new();
    feed(&mut s, RetryEvent::Start);
    feed(&mut s, RetryEvent::Failed(unavailable()));
    feed(&mut s, RetryEvent::Failed(unavailable()));
    assert_eq!(s.attempts(), 3);
    assert!(matches!(feed(&mut s, RetryEvent::Failed(unauthenticated())), RetryAction::Refresh));
    let action = feed(&mut s, RetryEvent::Refreshed);
    assert!(matches!(action, RetryAction::Abort(Error::ExecuteFailed)));
    assert_eq!(s.attempts(), 3);
}

#[test]
fn repeated_auth_failures_are_bounded() {
    let mut s = RetryState::new();
    let mut attempts = 0;
    let mut refreshes = 0;
    let mut action = feed(&mut s, RetryEvent::Start);
    loop {
        match action {
            RetryAction::Attempt => {
                attempts += 1;
                action = feed(&mut s, RetryEvent::Failed(unauthenticated()));
            }
            RetryAction::Refresh => {
                refreshes += 1;
                action = feed(&mut s, RetryEvent::Refreshed);
            }
            RetryAction::Abort(e) => {
                assert!(matches!(e, Error::ExecuteFailed));
                break;
            }
            RetryAction::Deliver => panic!("nothing succeeded"),
        }
    }
    assert_eq!(attempts, 3);
    assert_eq!(refreshes, 3);
}

#[test]
fn events_are_accepted_by_phase() {
    let mut s = RetryState::new();
    assert!(s.accepts(&RetryEvent::Start));
    assert!(!s.accepts(&RetryEvent::Succeeded));
    assert!(!s.accepts(&RetryEvent::Failed(unavailable())));
    assert!(!s.accepts(&RetryEvent::Refreshed));
    s.step(RetryEvent::Start);
    assert!(!s.accepts(&RetryEvent::Start));
    assert!(s.accepts(&RetryEvent::Succeeded));
    assert!(s.accepts(&RetryEvent::Failed(unavailable())));
    assert!(!s.accepts(&RetryEvent::RefreshFailed(Error::ChannelClosed)));
}

#[test]
fn after_failure_follows_the_class() {
    let mut s = RetryState::new();
    s.step(RetryEvent::Start);
    let a = s.after_failure(FailureClass::Transient, unavailable());
    assert!(matches!(a, RetryAction::Attempt));
    assert_eq!(s.attempts(), 2);
    let a = s.after_failure(FailureClass::AuthExpired, unauthenticated());
    assert!(matches!(a, RetryAction::Refresh));
    assert_eq!(s.phase, RetryPhase::Refreshing);

    let mut s = RetryState::new();
    s.step(RetryEvent::Start);
    let a = s.after_failure(FailureClass::Fatal, tonic::Status::new(tonic::Code::Aborted, "x"));
    assert!(matches!(a, RetryAction::Abort(Error::Response(_))));
    assert_eq!(s.phase, RetryPhase::Finished);
}

#[test]
fn validity_follows_counter_and_phase() {
    assert!(RetryState::new().is_valid());
    assert!(RetryState { attempts: 3, phase: RetryPhase::Finished }.is_valid());
    assert!(!RetryState { attempts: 4, phase: RetryPhase::InFlight }.is_valid());
    assert!(!RetryState { attempts: 0, phase: RetryPhase::InFlight }.is_valid());
    assert!(!RetryState { attempts: 1, phase: RetryPhase::Idle }.is_valid());
}
