use remote_core::supervisor::{
    ConnectOutcome, Supervisor, SupervisorAction, SupervisorEvent, SupervisorPhase,
    BACKOFF_CEILING_SECS, BACKOFF_FLOOR_SECS, SESSION_POLL_SECS,
};
use remote_core::transport::ConnectError;

fn fail_retryable() -> SupervisorEvent {
    SupervisorEvent::Attempted(ConnectOutcome::Failed(ConnectError::ConnectionError))
}

/// Drive `n` consecutive failed attempts and collect the slept delays.
fn observed_delays(sup: &mut Supervisor, n: usize) -> Vec<u64> {
    let mut delays = Vec::new();
    for _ in 0..n {
        match sup.step(fail_retryable()) {
            SupervisorAction::Sleep(secs) => delays.push(secs),
            other => panic!("expected a backoff sleep, got {other:?}"),
        }
        assert_eq!(sup.step(SupervisorEvent::BackoffElapsed), SupervisorAction::Attempt);
    }
    delays
}

#[test]
fn constants_match_the_design() {
    assert_eq!(BACKOFF_FLOOR_SECS, 1);
    assert_eq!(BACKOFF_CEILING_SECS, 30);
    assert_eq!(SESSION_POLL_SECS, 1);
}

#[test]
fn backoff_sequence_doubles_to_the_ceiling() {
    let mut sup = Supervisor::new();
    assert_eq!(sup.step(SupervisorEvent::Start), SupervisorAction::Attempt);
    let delays = observed_delays(&mut sup, 9);
    assert_eq!(delays, vec![1, 2, 4, 8, 16, 30, 30, 30, 30]);
    assert!(delays.iter().all(|d| *d <= BACKOFF_CEILING_SECS));
}

#[test]
fn session_end_resets_backoff_to_floor() {
    let mut sup = Supervisor::new();
    sup.step(SupervisorEvent::Start);
    // Three refused connections: observed delays 1s, 2s, 4s.
    let delays = observed_delays(&mut sup, 3);
    assert_eq!(delays, vec![1, 2, 4]);
    // Then the attempt succeeds and the session reaches Active.
    assert_eq!(
        sup.step(SupervisorEvent::Attempted(ConnectOutcome::Opened)),
        SupervisorAction::WaitForSessionEnd
    );
    assert_eq!(sup.phase, SupervisorPhase::Active);
    // The session ends (a clean stream end looks no different here): the
    // next attempt is immediate and the delay is back at the floor.
    assert_eq!(sup.step(SupervisorEvent::SessionEnded), SupervisorAction::Attempt);
    assert_eq!(sup.phase, SupervisorPhase::Attempting);
    assert_eq!(sup.delay_secs, BACKOFF_FLOOR_SECS);
    let delays_after = observed_delays(&mut sup, 2);
    assert_eq!(delays_after, vec![1, 2]);
}

#[test]
fn config_error_stops_the_supervisor() {
    let mut sup = Supervisor::new();
    sup.step(SupervisorEvent::Start);
    assert_eq!(
        sup.step(SupervisorEvent::Attempted(ConnectOutcome::Failed(ConnectError::ConfigError))),
        SupervisorAction::Stop
    );
    assert_eq!(sup.phase, SupervisorPhase::Stopped);
}

#[test]
fn success_resets_delay_even_before_session_ends() {
    let mut sup = Supervisor::new();
    sup.step(SupervisorEvent::Start);
    observed_delays(&mut sup, 5);
    sup.step(SupervisorEvent::Attempted(ConnectOutcome::Opened));
    assert_eq!(sup.delay_secs, BACKOFF_FLOOR_SECS);
}
