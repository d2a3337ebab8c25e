use crate::transport::ConnectError;
use vstd::prelude::*;

verus! {

/// Smallest delay, in seconds, between two connection attempts.
pub const BACKOFF_FLOOR_SECS: u64 = 1;

/// Largest delay, in seconds, between two connection attempts.
pub const BACKOFF_CEILING_SECS: u64 = 30;

/// Seconds between two polls of the liveness flag while a session is open.
pub const SESSION_POLL_SECS: u64 = 1;

/// The delay that follows `delay` after one more connection failure:
/// doubled, capped at the ceiling.
pub open spec fn next_backoff_spec(delay: u64) -> u64 {
    if 2 * delay > BACKOFF_CEILING_SECS {
        BACKOFF_CEILING_SECS
    } else {
        (2 * delay) as u64
    }
}

/// Double a backoff delay, capped at the ceiling.
pub fn next_backoff(delay: u64) -> (r: u64)
    requires
        BACKOFF_FLOOR_SECS <= delay <= BACKOFF_CEILING_SECS,
    ensures
        r == next_backoff_spec(delay),
        BACKOFF_FLOOR_SECS <= r <= BACKOFF_CEILING_SECS,
{
    if delay >= BACKOFF_CEILING_SECS / 2 + 1 {
        BACKOFF_CEILING_SECS
    } else {
        2 * delay
    }
}

/// The delay slept before retry number `k + 1`, counting consecutive
/// connection failures from a fresh floor: the floor at the first failure,
/// then doubled at each further one, capped at the ceiling.
pub open spec fn backoff_delay_at(k: nat) -> u64
    decreases k,
{
    if k == 0 {
        BACKOFF_FLOOR_SECS
    } else {
        next_backoff_spec(backoff_delay_at((k - 1) as nat))
    }
}

/// Every backoff delay lies between the floor and the ceiling: the cap is
/// strict, no delay ever exceeds the ceiling.
pub proof fn lemma_backoff_bounds(k: nat)
    ensures
        BACKOFF_FLOOR_SECS <= backoff_delay_at(k) <= BACKOFF_CEILING_SECS,
    decreases k,
{
    if k > 0 {
        lemma_backoff_bounds((k - 1) as nat);
    }
}

/// The backoff sequence from a fresh floor is 1, 2, 4, 8, 16, 30, 30, ...:
/// doubling up to the ceiling, then pinned there.
pub proof fn lemma_backoff_sequence(k: nat)
    ensures
        backoff_delay_at(0) == 1,
        backoff_delay_at(1) == 2,
        backoff_delay_at(2) == 4,
        backoff_delay_at(3) == 8,
        backoff_delay_at(4) == 16,
        k >= 5 ==> backoff_delay_at(k) == 30,
    decreases k,
{
    assert(backoff_delay_at(0) == 1);
    assert(backoff_delay_at(1) == 2);
    assert(backoff_delay_at(2) == 4);
    assert(backoff_delay_at(3) == 8);
    assert(backoff_delay_at(4) == 16);
    if k == 5 {
        assert(backoff_delay_at(5) == 30);
    } else if k > 5 {
        lemma_backoff_sequence((k - 1) as nat);
    }
}

/// What came of one connection attempt.
#[derive(Clone, Copy, Debug, PartialEq, Eq, Structural)]
pub enum ConnectOutcome {
    /// The handshake succeeded: a session is open.
    Opened,
    /// The attempt failed, with the session layer's classification.
    Failed(ConnectError),
}

/// Where the supervisor stands.
#[derive(Clone, Copy, Debug, PartialEq, Eq, Structural)]
pub enum SupervisorPhase {
    /// Not yet started.
    Idle,
    /// A connection attempt is in flight.
    Attempting,
    /// A session is open; waiting for its liveness flag to clear.
    Active,
    /// Sleeping off the current retry delay after a failed attempt.
    Backoff,
    /// Stopped for good on a fatal configuration failure.
    Stopped,
}

/// What the supervisor hears from the outside.
#[derive(Clone, Copy, Debug, PartialEq, Eq, Structural)]
pub enum SupervisorEvent {
    /// Begin connecting.
    Start,
    /// The connection attempt finished.
    Attempted(ConnectOutcome),
    /// The open session's liveness flag went false.
    SessionEnded,
    /// The backoff sleep is over.
    BackoffElapsed,
}

/// What the supervisor asks its driver to do next.
#[derive(Clone, Copy, Debug, PartialEq, Eq, Structural)]
pub enum SupervisorAction {
    /// Open the transport and report the outcome.
    Attempt,
    /// Poll the liveness flag until it clears, then report `SessionEnded`.
    WaitForSessionEnd,
    /// Sleep this many seconds, then report `BackoffElapsed`.
    Sleep(u64),
    /// Fatal configuration failure: stop retrying, surface the error.
    Stop,
}

/// The reconnection supervisor: the outermost loop's phase and its retry
/// state.  The retry delay is owned here alone: reset to the floor on every
/// successful establishment, doubled up to the ceiling on every failure.
#[derive(Clone, Copy, Debug, PartialEq, Eq, Structural)]
pub struct Supervisor {
    pub phase: SupervisorPhase,
    pub delay_secs: u64,
}

/// Which events a phase can hear.
pub open spec fn enabled(s: Supervisor, e: SupervisorEvent) -> bool {
    match e {
        SupervisorEvent::Start => s.phase is Idle,
        SupervisorEvent::Attempted(_) => s.phase is Attempting,
        SupervisorEvent::SessionEnded => s.phase is Active,
        SupervisorEvent::BackoffElapsed => s.phase is Backoff,
    }
}

/// The supervisor's transition function.  Success resets the delay to the
/// floor; a retryable failure sleeps the current delay and doubles it, up to
/// the ceiling; the end of a session retries at once; a configuration
/// failure stops the supervisor for good.
pub open spec fn step_spec(s: Supervisor, e: SupervisorEvent) -> (Supervisor, SupervisorAction) {
    match e {
        SupervisorEvent::Start => (
            (Supervisor { phase: SupervisorPhase::Attempting, ..s }),
            SupervisorAction::Attempt,
        ),
        SupervisorEvent::Attempted(ConnectOutcome::Opened) => (
            (Supervisor { phase: SupervisorPhase::Active, delay_secs: BACKOFF_FLOOR_SECS }),
            SupervisorAction::WaitForSessionEnd,
        ),
        SupervisorEvent::Attempted(ConnectOutcome::Failed(ConnectError::ConnectionError)) => (
            (Supervisor {
                phase: SupervisorPhase::Backoff,
                delay_secs: next_backoff_spec(s.delay_secs),
            }),
            SupervisorAction::Sleep(s.delay_secs),
        ),
        SupervisorEvent::Attempted(ConnectOutcome::Failed(ConnectError::ConfigError)) => (
            (Supervisor { phase: SupervisorPhase::Stopped, ..s }),
            SupervisorAction::Stop,
        ),
        SupervisorEvent::SessionEnded => (
            (Supervisor { phase: SupervisorPhase::Attempting, ..s }),
            SupervisorAction::Attempt,
        ),
        SupervisorEvent::BackoffElapsed => (
            (Supervisor { phase: SupervisorPhase::Attempting, ..s }),
            SupervisorAction::Attempt,
        ),
    }
}

impl Supervisor {
    /// The retry delay always lies between the floor and the ceiling.
    pub open spec fn wf(self) -> bool {
        BACKOFF_FLOOR_SECS <= self.delay_secs <= BACKOFF_CEILING_SECS
    }

    /// A supervisor that has not yet started, with the delay at the floor.
    pub fn new() -> (r: Supervisor)
        ensures
            r.phase is Idle,
            r.delay_secs == BACKOFF_FLOOR_SECS,
            r.wf(),
    {
        Supervisor { phase: SupervisorPhase::Idle, delay_secs: BACKOFF_FLOOR_SECS }
    }

    /// Take one step of the supervisor's state machine.
    pub fn step(&mut self, event: SupervisorEvent) -> (r: SupervisorAction)
        requires
            old(self).wf(),
            enabled(*old(self), event),
        ensures
            final(self).wf(),
            (*final(self), r) == step_spec(*old(self), event),
    {
        match event {
            SupervisorEvent::Start => {
                self.phase = SupervisorPhase::Attempting;
                SupervisorAction::Attempt
            },
            SupervisorEvent::Attempted(ConnectOutcome::Opened) => {
                self.phase = SupervisorPhase::Active;
                self.delay_secs = BACKOFF_FLOOR_SECS;
                SupervisorAction::WaitForSessionEnd
            },
            SupervisorEvent::Attempted(ConnectOutcome::Failed(ConnectError::ConnectionError)) => {
                self.phase = SupervisorPhase::Backoff;
                let slept = self.delay_secs;
                self.delay_secs = next_backoff(slept);
                SupervisorAction::Sleep(slept)
            },
            SupervisorEvent::Attempted(ConnectOutcome::Failed(ConnectError::ConfigError)) => {
                self.phase = SupervisorPhase::Stopped;
                SupervisorAction::Stop
            },
            SupervisorEvent::SessionEnded => {
                self.phase = SupervisorPhase::Attempting;
                SupervisorAction::Attempt
            },
            SupervisorEvent::BackoffElapsed => {
                self.phase = SupervisorPhase::Attempting;
                SupervisorAction::Attempt
            },
        }
    }
}

/// The supervisor after `k` consecutive failure-and-retry cycles: each cycle
/// is one retryable failure followed by the end of the backoff sleep.
pub open spec fn after_failure_cycles(s: Supervisor, k: nat) -> Supervisor
    decreases k,
{
    if k == 0 {
        s
    } else {
        let s1 = step_spec(
            after_failure_cycles(s, (k - 1) as nat),
            SupervisorEvent::Attempted(ConnectOutcome::Failed(ConnectError::ConnectionError)),
        ).0;
        step_spec(s1, SupervisorEvent::BackoffElapsed).0
    }
}

/// Along any run of consecutive retryable failures from a fresh floor, the
/// delay the machine sleeps at its `k`-th failure is `backoff_delay_at(k)`:
/// 1, 2, 4, 8, 16, then 30 for ever.
pub proof fn lemma_backoff_trace(s: Supervisor, k: nat)
    requires
        s.phase is Attempting,
        s.delay_secs == BACKOFF_FLOOR_SECS,
    ensures
        after_failure_cycles(s, k).phase is Attempting,
        after_failure_cycles(s, k).delay_secs == backoff_delay_at(k),
        step_spec(
            after_failure_cycles(s, k),
            SupervisorEvent::Attempted(ConnectOutcome::Failed(ConnectError::ConnectionError)),
        ).1 == SupervisorAction::Sleep(backoff_delay_at(k)),
    decreases k,
{
    if k > 0 {
        lemma_backoff_trace(s, (k - 1) as nat);
    }
}

/// After any successfully opened session ends, however long it lived, the
/// next attempt is immediate and the retry delay is back at the floor, not
/// at the value the failures before the session had driven it to.
pub proof fn lemma_reset_after_session(s: Supervisor)
    requires
        s.phase is Attempting,
    ensures
        ({
            let (s1, a1) = step_spec(s, SupervisorEvent::Attempted(ConnectOutcome::Opened));
            let (s2, a2) = step_spec(s1, SupervisorEvent::SessionEnded);
            &&& s1.phase is Active
            &&& a1 == SupervisorAction::WaitForSessionEnd
            &&& s2.phase is Attempting
            &&& a2 == SupervisorAction::Attempt
            &&& s2.delay_secs == BACKOFF_FLOOR_SECS
        }),
{
}

/// Only a fatal configuration failure ever stops the supervisor: every other
/// event leaves it in a phase from which it keeps retrying.
pub proof fn lemma_only_config_error_stops(s: Supervisor, e: SupervisorEvent)
    requires
        !(s.phase is Stopped),
        enabled(s, e),
    ensures
        step_spec(s, e).0.phase is Stopped <==> e == SupervisorEvent::Attempted(
            ConnectOutcome::Failed(ConnectError::ConfigError),
        ),
{
}

} // verus!
