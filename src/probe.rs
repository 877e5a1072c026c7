//! The readiness polling loop as a state machine: after each attempt it
//! decides whether the server is ready, the deadline has passed, or the loop
//! should sleep and try again. Times are milliseconds on one monotonic clock.
use vstd::prelude::*;

verus! {

/// Default time allowed for the server to become ready.
pub const READY_TIMEOUT_MS: u64 = 15000;

/// Default pause between two attempts.
pub const READY_POLL_MS: u64 = 250;

/// Timeout for connecting, reading and writing within one attempt.
pub const ATTEMPT_TIMEOUT_MS: u64 = 500;

/// The loopback port the backend listens on.
pub const BACKEND_PORT: u16 = 8000;

/// Where the polling loop stands.
#[derive(PartialEq, Eq, Structural, Clone, Copy, Debug)]
pub enum Readiness {
    NotYetDetermined,
    Ready,
    TimedOut,
}

/// What the loop does after an attempt.
#[derive(PartialEq, Eq, Structural, Clone, Copy, Debug)]
pub enum ProbeStep {
    /// A success reply was seen: stop, the server is ready.
    Ready,
    /// The deadline has passed: stop, the server did not become ready.
    TimedOut,
    /// Sleep this many milliseconds, then attempt again.
    RetryAfter(u64),
}

/// The decision after an attempt that ended at `now`.
pub open spec fn decide(deadline: int, interval: u64, success: bool, now: int) -> ProbeStep {
    if success {
        ProbeStep::Ready
    } else if now >= deadline {
        ProbeStep::TimedOut
    } else {
        ProbeStep::RetryAfter(interval)
    }
}

/// The readiness a decision leaves the loop in.
pub open spec fn readiness_after(step: ProbeStep) -> Readiness {
    match step {
        ProbeStep::Ready => Readiness::Ready,
        ProbeStep::TimedOut => Readiness::TimedOut,
        ProbeStep::RetryAfter(_) => Readiness::NotYetDetermined,
    }
}

/// One run of the polling loop.
pub struct ReadinessProbe {
    deadline_ms: u64,
    interval_ms: u64,
    attempts: u64,
    state: Readiness,
}

impl ReadinessProbe {
    pub closed spec fn deadline(&self) -> int {
        self.deadline_ms as int
    }

    pub closed spec fn interval(&self) -> u64 {
        self.interval_ms
    }

    pub closed spec fn attempt_count(&self) -> int {
        self.attempts as int
    }

    pub closed spec fn readiness(&self) -> Readiness {
        self.state
    }

    /// A loop has only reached a verdict after at least one attempt.
    pub open spec fn wf(&self) -> bool {
        self.readiness() != Readiness::NotYetDetermined ==> self.attempt_count() >= 1
    }

    /// Starts a loop at time `start_ms` whose deadline is `timeout_ms` later.
    pub fn new(start_ms: u64, timeout_ms: u64, interval_ms: u64) -> (r: Self)
        requires
            start_ms + timeout_ms <= u64::MAX,
        ensures
            r.wf(),
            r.deadline() == start_ms + timeout_ms,
            r.interval() == interval_ms,
            r.attempt_count() == 0,
            r.readiness() == Readiness::NotYetDetermined,
    {
        ReadinessProbe {
            deadline_ms: start_ms + timeout_ms,
            interval_ms,
            attempts: 0,
            state: Readiness::NotYetDetermined,
        }
    }

    /// Records the outcome of one attempt that ended at `now_ms` and says
    /// what to do next: success ends the loop as ready; otherwise a passed
    /// deadline ends it as timed out; otherwise the loop sleeps one interval.
    pub fn record_attempt(&mut self, success: bool, now_ms: u64) -> (r: ProbeStep)
        requires
            old(self).wf(),
            old(self).readiness() == Readiness::NotYetDetermined,
            old(self).attempt_count() < u64::MAX,
        ensures
            final(self).wf(),
            r == decide(old(self).deadline(), old(self).interval(), success, now_ms as int),
            final(self).readiness() == readiness_after(r),
            final(self).attempt_count() == old(self).attempt_count() + 1,
            final(self).deadline() == old(self).deadline(),
            final(self).interval() == old(self).interval(),
    {
        self.attempts = self.attempts + 1;
        let step = if success {
            ProbeStep::Ready
        } else if now_ms >= self.deadline_ms {
            ProbeStep::TimedOut
        } else {
            ProbeStep::RetryAfter(self.interval_ms)
        };
        self.state = match step {
            ProbeStep::Ready => Readiness::Ready,
            ProbeStep::TimedOut => Readiness::TimedOut,
            ProbeStep::RetryAfter(_) => Readiness::NotYetDetermined,
        };
        step
    }

    /// Attempts made so far.
    pub fn attempts(&self) -> (r: u64)
        ensures
            r == self.attempt_count(),
    {
        self.attempts
    }

    /// Where the loop stands.
    pub fn state(&self) -> (r: Readiness)
        ensures
            r == self.readiness(),
    {
        self.state
    }
}

/// A run of failed attempts, ended at the times in `ends`, that kept retrying
/// until the last attempt, which timed out.
pub open spec fn timed_out_run(deadline: int, interval: u64, ends: Seq<int>) -> bool {
    &&& ends.len() >= 1
    &&& forall|j: int|
        0 <= j < ends.len() - 1 ==> decide(deadline, interval, false, #[trigger] ends[j])
            == ProbeStep::RetryAfter(interval)
    &&& decide(deadline, interval, false, ends.last()) == ProbeStep::TimedOut
}

/// Each attempt ended within `interval` of the one before, the first within
/// `interval` of `start`.
pub open spec fn paced(start: int, interval: u64, ends: Seq<int>) -> bool {
    &&& ends.len() >= 1 ==> ends[0] - start <= interval
    &&& forall|j: int| 1 <= j < ends.len() ==> #[trigger] ends[j] - ends[j - 1] <= interval
}

/// A loop started at `start` with timeout `timeout` gives up no earlier than
/// the deadline, after at least one attempt; and when each attempt ends
/// within one interval of the one before (the first within one interval of
/// the start), it gives up at most one interval after the deadline.
pub proof fn lemma_timeout_overshoot_bounded(
    start: int,
    timeout: int,
    interval: u64,
    ends: Seq<int>,
)
    requires
        timeout >= 0,
        timed_out_run(start + timeout, interval, ends),
    ensures
        ends.len() >= 1,
        ends.last() - start >= timeout,
        ends.len() >= 2 ==> ends.last() - start < timeout + (ends.last() - ends[ends.len() - 2]),
        paced(start, interval, ends) ==> ends.last() - start <= timeout + interval,
{
    if ends.len() >= 2 {
        let k = ends.len() - 2;
        assert(decide(start + timeout, interval, false, ends[k]) == ProbeStep::RetryAfter(interval));
        if paced(start, interval, ends) {
            assert(ends[k + 1] - ends[k] <= interval);
        }
    }
}

} // verus!
