//! The connection supervisor: a state machine that drives the
//! connect -> consume -> fail -> delay -> reconnect loop and never
//! reaches a terminal state.
use vstd::prelude::*;

verus! {

/// Delay before the first connection attempt and between retries, in
/// milliseconds.
pub const DEFAULT_RETRY_DELAY_MS: u64 = 2000;

/// The supervisor's states.
#[derive(Clone, Copy, PartialEq, Eq, Structural, Debug)]
pub enum SupervisorState {
    /// Process start; no connection attempt has been scheduled yet.
    Idle,
    /// A connection attempt (connect, topology setup, consumer
    /// registration) is in flight.
    Connecting,
    /// Connected; deliveries are being consumed.
    Consuming,
    /// A failure occurred; waiting out the retry delay.
    Backoff,
}

/// What the surrounding event loop observed.
#[derive(Clone, Copy, PartialEq, Eq, Structural, Debug)]
pub enum SupervisorEvent {
    /// The process started.
    Started,
    /// Connect, topology setup and consumer registration all succeeded.
    ConnectSucceeded,
    /// Connect, topology setup or consumer registration failed.
    ConnectFailed,
    /// The delivery stream returned an error or ended.
    StreamFailed,
    /// The retry delay has elapsed.
    DelayElapsed,
}

/// What the surrounding event loop must do next.
#[derive(Clone, Copy, PartialEq, Eq, Structural, Debug)]
pub enum SupervisorAction {
    /// Wait for `retry_delay_ms`, then feed back `DelayElapsed`.
    StartDelay,
    /// Attempt to connect and set up the topology, then feed back
    /// `ConnectSucceeded` or `ConnectFailed`.
    AttemptConnect,
    /// Consume deliveries until the stream fails, then feed back
    /// `StreamFailed`.
    BeginConsuming,
    /// The event does not apply in the current state; do nothing.
    Ignore,
}

/// The supervisor's whole mutable state: where it stands in the retry
/// loop, the configured delay, and how many connection attempts it has
/// started (observable, so that retry behaviour can be checked).
pub struct Supervisor {
    pub state: SupervisorState,
    pub retry_delay_ms: u64,
    pub connect_attempts: u64,
}

/// Counts one more connection attempt; the counter sticks at the
/// machine maximum rather than wrap.
pub open spec fn spec_count_attempt(n: u64) -> u64 {
    if n == u64::MAX {
        n
    } else {
        (n + 1) as u64
    }
}

/// The transition function: next state and required action for each
/// state/event pair. Total; events that do not apply in a state leave
/// it unchanged. There is no terminal state: every state has an
/// outgoing transition, and every failure leads back to `Connecting`
/// through `Backoff`.
pub open spec fn spec_step(s: Supervisor, ev: SupervisorEvent) -> (Supervisor, SupervisorAction) {
    match (s.state, ev) {
        (SupervisorState::Idle, SupervisorEvent::Started) => (
            s,
            SupervisorAction::StartDelay,
        ),
        (SupervisorState::Idle, SupervisorEvent::DelayElapsed) => (
            Supervisor {
                state: SupervisorState::Connecting,
                connect_attempts: spec_count_attempt(s.connect_attempts),
                ..s
            },
            SupervisorAction::AttemptConnect,
        ),
        (SupervisorState::Connecting, SupervisorEvent::ConnectSucceeded) => (
            Supervisor { state: SupervisorState::Consuming, ..s },
            SupervisorAction::BeginConsuming,
        ),
        (SupervisorState::Connecting, SupervisorEvent::ConnectFailed) => (
            Supervisor { state: SupervisorState::Backoff, ..s },
            SupervisorAction::StartDelay,
        ),
        (SupervisorState::Consuming, SupervisorEvent::StreamFailed) => (
            Supervisor { state: SupervisorState::Backoff, ..s },
            SupervisorAction::StartDelay,
        ),
        (SupervisorState::Backoff, SupervisorEvent::DelayElapsed) => (
            Supervisor {
                state: SupervisorState::Connecting,
                connect_attempts: spec_count_attempt(s.connect_attempts),
                ..s
            },
            SupervisorAction::AttemptConnect,
        ),
        _ => (s, SupervisorAction::Ignore),
    }
}

impl Supervisor {
    /// A fresh supervisor: idle, no connection attempt started.
    pub fn new(retry_delay_ms: u64) -> (s: Supervisor)
        ensures
            s.state is Idle,
            s.retry_delay_ms == retry_delay_ms,
            s.connect_attempts == 0,
    {
        Supervisor {
            state: SupervisorState::Idle,
            retry_delay_ms,
            connect_attempts: 0,
        }
    }

    /// Advances the state machine by one event and returns the action
    /// the event loop must perform next, exactly as `spec_step` says.
    pub fn step(&mut self, ev: SupervisorEvent) -> (act: SupervisorAction)
        ensures
            *final(self) == spec_step(*old(self), ev).0,
            act == spec_step(*old(self), ev).1,
    {
        match (self.state, ev) {
            (SupervisorState::Idle, SupervisorEvent::Started) => SupervisorAction::StartDelay,
            (SupervisorState::Idle, SupervisorEvent::DelayElapsed) => {
                self.state = SupervisorState::Connecting;
                self.count_attempt();
                SupervisorAction::AttemptConnect
            },
            (SupervisorState::Connecting, SupervisorEvent::ConnectSucceeded) => {
                self.state = SupervisorState::Consuming;
                SupervisorAction::BeginConsuming
            },
            (SupervisorState::Connecting, SupervisorEvent::ConnectFailed) => {
                self.state = SupervisorState::Backoff;
                SupervisorAction::StartDelay
            },
            (SupervisorState::Consuming, SupervisorEvent::StreamFailed) => {
                self.state = SupervisorState::Backoff;
                SupervisorAction::StartDelay
            },
            (SupervisorState::Backoff, SupervisorEvent::DelayElapsed) => {
                self.state = SupervisorState::Connecting;
                self.count_attempt();
                SupervisorAction::AttemptConnect
            },
            _ => SupervisorAction::Ignore,
        }
    }

    fn count_attempt(&mut self)
        ensures
            *final(self) == (Supervisor {
                connect_attempts: spec_count_attempt(old(self).connect_attempts),
                ..*old(self)
            }),
    {
        if self.connect_attempts < u64::MAX {
            self.connect_attempts = self.connect_attempts + 1;
        }
    }
}

/// No state is terminal: in every state some event applies and
/// demands a further action of the event loop, so the loop runs for
/// the lifetime of the process.
pub proof fn lemma_no_terminal_state(s: Supervisor)
    ensures
        exists|ev: SupervisorEvent| !(#[trigger] spec_step(s, ev).1 is Ignore),
{
    match s.state {
        SupervisorState::Idle => {
            assert(!(spec_step(s, SupervisorEvent::Started).1 is Ignore));
        },
        SupervisorState::Connecting => {
            assert(!(spec_step(s, SupervisorEvent::ConnectSucceeded).1 is Ignore));
        },
        SupervisorState::Consuming => {
            assert(!(spec_step(s, SupervisorEvent::StreamFailed).1 is Ignore));
        },
        SupervisorState::Backoff => {
            assert(!(spec_step(s, SupervisorEvent::DelayElapsed).1 is Ignore));
        },
    }
}

/// A delivery-stream failure while consuming is followed, once the
/// retry delay elapses, by exactly one further connection attempt.
pub proof fn lemma_retry_after_stream_failure(s: Supervisor)
    requires
        s.state is Consuming,
        s.connect_attempts < u64::MAX,
    ensures
        ({
            let (s1, a1) = spec_step(s, SupervisorEvent::StreamFailed);
            let (s2, a2) = spec_step(s1, SupervisorEvent::DelayElapsed);
            &&& s1.state is Backoff
            &&& a1 is StartDelay
            &&& s2.state is Connecting
            &&& a2 is AttemptConnect
            &&& s2.connect_attempts == s.connect_attempts + 1
        }),
{
}

/// After a connect failure, one retry delay elapsing leads to exactly
/// one further connection attempt, and the machine stands in
/// `Connecting` again, so the same holds of every later failure:
/// retries continue indefinitely.
pub proof fn lemma_retry_after_connect_failure(s: Supervisor)
    requires
        s.state is Connecting,
        s.connect_attempts < u64::MAX,
    ensures
        ({
            let (s1, a1) = spec_step(s, SupervisorEvent::ConnectFailed);
            let (s2, a2) = spec_step(s1, SupervisorEvent::DelayElapsed);
            &&& s1.state is Backoff
            &&& a1 is StartDelay
            &&& s2.state is Connecting
            &&& a2 is AttemptConnect
            &&& s2.connect_attempts == s.connect_attempts + 1
        }),
{
}

} // verus!
