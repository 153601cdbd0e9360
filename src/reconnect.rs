//! Reconnect with exponential backoff.
//!
//! After each failed connection attempt the client either waits and tries
//! again, the wait starting at the initial delay and doubling up to a ceiling,
//! or gives up once the configured number of attempts has failed. The caller
//! sleeps and connects; this module decides.

use vstd::prelude::*;
use vstd::string::*;

use crate::error::{error_kind, ErrorKind, GameRLError};

verus! {

/// How a client reconnects.
#[derive(Debug, Clone, Copy, PartialEq, Eq, Structural)]
pub struct BackoffPolicy {
    /// Connection attempts made before giving up; at least one.
    pub max_attempts: u32,
    /// Wait after the first failed attempt, in milliseconds.
    pub initial_delay_ms: u64,
    /// Ceiling of every wait, in milliseconds.
    pub max_delay_ms: u64,
}

impl BackoffPolicy {
    /// A usable policy: one attempt at least, and a first wait under the ceiling.
    pub open spec fn valid(self) -> bool {
        self.max_attempts >= 1 && self.initial_delay_ms <= self.max_delay_ms
    }

    /// Five attempts, waiting 100 ms at first and 5 s at most.
    pub fn standard() -> (r: BackoffPolicy)
        ensures
            r.valid(),
            r.max_attempts == 5,
            r.initial_delay_ms == 100,
            r.max_delay_ms == 5000,
    {
        BackoffPolicy { max_attempts: 5, initial_delay_ms: 100, max_delay_ms: 5000 }
    }
}

/// What follows a failed connection attempt.
#[derive(Debug, Clone, Copy, PartialEq, Eq, Structural)]
pub enum ReconnectStep {
    /// Wait this long, then try again.
    Retry { delay_ms: u64 },
    /// Attempts are exhausted: report the lost connection.
    GiveUp,
}

/// The wait after `delay`: doubled, but never above `cap`.
pub open spec fn next_delay(delay: u64, cap: u64) -> u64 {
    if 2 * delay > cap {
        cap
    } else {
        (2 * delay) as u64
    }
}

/// Failures counted, next wait and step after one more failed attempt.
pub open spec fn failure_spec(p: BackoffPolicy, failures: u32, delay: u64) -> (
    u32,
    u64,
    ReconnectStep,
) {
    if failures + 1 < p.max_attempts {
        (
            (failures + 1) as u32,
            next_delay(delay, p.max_delay_ms),
            ReconnectStep::Retry { delay_ms: delay },
        )
    } else {
        (p.max_attempts, delay, ReconnectStep::GiveUp)
    }
}

/// The steps after `n` failed attempts in a row.
pub open spec fn failures_spec(p: BackoffPolicy, failures: u32, delay: u64, n: nat) -> Seq<
    ReconnectStep,
>
    decreases n,
{
    if n == 0 {
        Seq::empty()
    } else {
        let (f1, d1, s) = failure_spec(p, failures, delay);
        seq![s] + failures_spec(p, f1, d1, (n - 1) as nat)
    }
}

/// The error a client reports when it gives up.
pub open spec fn give_up_error(e: GameRLError) -> bool {
    e is IpcError
}

/// The reconnect state of one client.
pub struct Reconnect {
    policy: BackoffPolicy,
    failures: u32,
    delay_ms: u64,
}

impl Reconnect {
    /// The policy in force.
    pub closed spec fn policy(&self) -> BackoffPolicy {
        self.policy
    }

    /// Failed attempts so far.
    pub closed spec fn failures(&self) -> u32 {
        self.failures
    }

    /// The wait that the next failure asks for.
    pub closed spec fn delay(&self) -> u64 {
        self.delay_ms
    }

    /// The state's invariant.
    pub closed spec fn wf(&self) -> bool {
        self.policy.valid() && self.failures <= self.policy.max_attempts && self.delay_ms
            <= self.policy.max_delay_ms
    }

    /// A fresh state, before any failure.
    pub fn new(policy: BackoffPolicy) -> (r: Reconnect)
        requires
            policy.valid(),
        ensures
            r.wf(),
            r.policy() == policy,
            r.failures() == 0,
            r.delay() == policy.initial_delay_ms,
    {
        Reconnect { policy, failures: 0, delay_ms: policy.initial_delay_ms }
    }

    /// Records a failed attempt and says what follows.
    pub fn on_failure(&mut self) -> (r: ReconnectStep)
        requires
            old(self).wf(),
        ensures
            final(self).wf(),
            final(self).policy() == old(self).policy(),
            (final(self).failures(), final(self).delay(), r) == failure_spec(
                old(self).policy(),
                old(self).failures(),
                old(self).delay(),
            ),
    {
        if self.failures < self.policy.max_attempts - 1 {
            let d = self.delay_ms;
            self.failures = self.failures + 1;
            self.delay_ms = if d > self.policy.max_delay_ms / 2 {
                self.policy.max_delay_ms
            } else {
                d * 2
            };
            ReconnectStep::Retry { delay_ms: d }
        } else {
            self.failures = self.policy.max_attempts;
            ReconnectStep::GiveUp
        }
    }

    /// Records a successful connection: the next loss starts afresh.
    pub fn on_success(&mut self)
        requires
            old(self).wf(),
        ensures
            final(self).wf(),
            final(self).policy() == old(self).policy(),
            final(self).failures() == 0,
            final(self).delay() == old(self).policy().initial_delay_ms,
    {
        self.failures = 0;
        self.delay_ms = self.policy.initial_delay_ms;
    }
}

/// The error reported once reconnecting is given up.
pub fn reconnect_exhausted() -> (r: GameRLError)
    ensures
        give_up_error(r),
        error_kind(r) == ErrorKind::ConnectionLost,
        r matches GameRLError::IpcError(s) && s@ == "Failed to reconnect after max attempts"@,
{
    GameRLError::IpcError(String::from_str("Failed to reconnect after max attempts"))
}

/// Reconnecting is bounded: from a fresh state, `n` failed attempts in a row,
/// `n` at least the configured number of attempts, give up at the last
/// configured attempt and from then on, and every wait before that is at most
/// the configured ceiling.
pub proof fn lemma_reconnect_bound(p: BackoffPolicy, n: nat)
    requires
        p.valid(),
        n >= p.max_attempts,
    ensures
        failures_spec(p, 0, p.initial_delay_ms, n).len() == n,
        forall|i: int|
            0 <= i < p.max_attempts - 1 ==> failures_spec(p, 0, p.initial_delay_ms, n)[i] is Retry,
        forall|i: int|
            p.max_attempts - 1 <= i < n ==> failures_spec(p, 0, p.initial_delay_ms, n)[i] is GiveUp,
        forall|i: int|
            0 <= i < n ==> (#[trigger] failures_spec(p, 0, p.initial_delay_ms, n)[i]
                matches ReconnectStep::Retry { delay_ms } ==> delay_ms <= p.max_delay_ms),
{
    lemma_failures(p, 0, p.initial_delay_ms, n);
}

proof fn lemma_failures(p: BackoffPolicy, failures: u32, delay: u64, n: nat)
    requires
        p.valid(),
        failures <= p.max_attempts,
        delay <= p.max_delay_ms,
    ensures
        failures_spec(p, failures, delay, n).len() == n,
        forall|i: int|
            0 <= i < n && failures + i + 1 < p.max_attempts ==> failures_spec(
                p,
                failures,
                delay,
                n,
            )[i] is Retry,
        forall|i: int|
            0 <= i < n && failures + i + 1 >= p.max_attempts ==> failures_spec(
                p,
                failures,
                delay,
                n,
            )[i] is GiveUp,
        forall|i: int|
            0 <= i < n ==> (#[trigger] failures_spec(p, failures, delay, n)[i]
                matches ReconnectStep::Retry { delay_ms } ==> delay_ms <= p.max_delay_ms),
    decreases n,
{
    if n > 0 {
        let (f1, d1, s) = failure_spec(p, failures, delay);
        lemma_failures(p, f1, d1, (n - 1) as nat);
        let rest = failures_spec(p, f1, d1, (n - 1) as nat);
        let all = failures_spec(p, failures, delay, n);
        assert(all == seq![s] + rest);
        assert forall|i: int| 0 < i < n implies all[i] == rest[i - 1] by {}
        if failures + 1 >= p.max_attempts {
            assert(f1 == p.max_attempts);
        }
    }
}

} // verus!
