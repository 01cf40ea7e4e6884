use mq_agent::supervisor::{
    Supervisor, SupervisorAction, SupervisorEvent, SupervisorState, DEFAULT_RETRY_DELAY_MS,
};

#[test]
fn initial_state_is_idle() {
    let s = Supervisor::new(DEFAULT_RETRY_DELAY_MS);
    assert_eq!(s.state, SupervisorState::Idle);
    assert_eq!(s.retry_delay_ms, 2000);
    assert_eq!(s.connect_attempts, 0);
}

#[test]
fn start_delays_then_connects() {
    let mut s = Supervisor::new(2000);
    assert_eq!(s.step(SupervisorEvent::Started), SupervisorAction::StartDelay);
    assert_eq!(s.state, SupervisorState::Idle);
    assert_eq!(s.step(SupervisorEvent::DelayElapsed), SupervisorAction::AttemptConnect);
    assert_eq!(s.state, SupervisorState::Connecting);
    assert_eq!(s.connect_attempts, 1);
}

#[test]
fn connect_failure_backs_off_then_retries_exactly_once() {
    let mut s = Supervisor::new(2000);
    s.step(SupervisorEvent::Started);
    s.step(SupervisorEvent::DelayElapsed);
    let before = s.connect_attempts;
    assert_eq!(s.step(SupervisorEvent::ConnectFailed), SupervisorAction::StartDelay);
    assert_eq!(s.state, SupervisorState::Backoff);
    assert_eq!(s.connect_attempts, before);
    assert_eq!(s.step(SupervisorEvent::DelayElapsed), SupervisorAction::AttemptConnect);
    assert_eq!(s.state, SupervisorState::Connecting);
    assert_eq!(s.connect_attempts, before + 1);
}

#[test]
fn failures_retry_indefinitely() {
    let mut s = Supervisor::new(2000);
    s.step(SupervisorEvent::Started);
    s.step(SupervisorEvent::DelayElapsed);
    for round in 0u64..5 {
        assert_eq!(s.step(SupervisorEvent::ConnectFailed), SupervisorAction::StartDelay);
        assert_eq!(s.step(SupervisorEvent::DelayElapsed), SupervisorAction::AttemptConnect);
        assert_eq!(s.connect_attempts, round + 2);
    }
}

#[test]
fn connect_success_starts_consuming() {
    let mut s = Supervisor::new(2000);
    s.step(SupervisorEvent::Started);
    s.step(SupervisorEvent::DelayElapsed);
    assert_eq!(s.step(SupervisorEvent::ConnectSucceeded), SupervisorAction::BeginConsuming);
    assert_eq!(s.state, SupervisorState::Consuming);
}

#[test]
fn stream_failure_backs_off_and_reconnects() {
    let mut s = Supervisor::new(2000);
    s.step(SupervisorEvent::Started);
    s.step(SupervisorEvent::DelayElapsed);
    s.step(SupervisorEvent::ConnectSucceeded);
    assert_eq!(s.step(SupervisorEvent::StreamFailed), SupervisorAction::StartDelay);
    assert_eq!(s.state, SupervisorState::Backoff);
    assert_eq!(s.step(SupervisorEvent::DelayElapsed), SupervisorAction::AttemptConnect);
    assert_eq!(s.state, SupervisorState::Connecting);
    assert_eq!(s.connect_attempts, 2);
}

#[test]
fn inapplicable_event_is_ignored() {
    let mut s = Supervisor::new(2000);
    assert_eq!(s.step(SupervisorEvent::ConnectSucceeded), SupervisorAction::Ignore);
    assert_eq!(s.state, SupervisorState::Idle);
    assert_eq!(s.connect_attempts, 0);
}
