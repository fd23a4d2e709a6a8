//! Bounded readiness polling.
//!
//! The backend is probed at `GET {base-url}/health` once per fixed
//! interval until it answers with a success-range HTTP status or a hard
//! ceiling of attempts is exhausted.  The host performs each HTTP
//! request and sleep; the [`HealthPoller`] here only accounts for the
//! attempts and decides, after every probe, whether to declare the
//! backend ready, retry after the interval, or give up.

use vstd::prelude::*;

verus! {

/// How many probes are made before `start` gives up.
pub const ATTEMPT_CEILING: u32 = 60;

/// How long the host sleeps between two probes, in milliseconds.
pub const POLL_INTERVAL_MS: u64 = 500;

/// What a single probe of the readiness endpoint observed.
#[derive(Clone, Copy, Debug, PartialEq, Eq, Structural)]
pub enum ProbeOutcome {
    /// An HTTP response arrived with a success-range status.
    Healthy,
    /// A response with any other status, or no response at all.
    Unhealthy,
}

/// What the poll loop does after a probe.
#[derive(Clone, Copy, Debug, PartialEq, Eq, Structural)]
pub enum PollVerdict {
    /// The backend is ready; polling ends successfully.
    Ready,
    /// Probe again after the fixed interval.
    Retry,
    /// The retry budget is exhausted; polling ends in failure.
    TimedOut,
}

/// Classifies one probe: an HTTP status in the success range means the
/// backend is healthy; any other status, or the absence of a response
/// (`None`), counts as an unhealthy attempt.
pub fn probe_outcome(status: Option<u16>) -> (o: ProbeOutcome)
    ensures
        o == spec_probe_outcome(status),
{
    match status {
        Some(code) => if 200 <= code && code < 300 {
            ProbeOutcome::Healthy
        } else {
            ProbeOutcome::Unhealthy
        },
        None => ProbeOutcome::Unhealthy,
    }
}

/// The classification that [`probe_outcome`] implements.
pub open spec fn spec_probe_outcome(status: Option<u16>) -> ProbeOutcome {
    if status matches Some(code) && 200 <= code < 300 {
        ProbeOutcome::Healthy
    } else {
        ProbeOutcome::Unhealthy
    }
}

/// The verdict after a probe, given how many attempts were already used
/// before it.
pub open spec fn step_verdict(attempts_before: nat, outcome: ProbeOutcome) -> PollVerdict {
    match outcome {
        ProbeOutcome::Healthy => PollVerdict::Ready,
        ProbeOutcome::Unhealthy => if attempts_before + 1 < ATTEMPT_CEILING {
            PollVerdict::Retry
        } else {
            PollVerdict::TimedOut
        },
    }
}

/// The attempt count after a probe.
pub open spec fn step_attempts(attempts_before: nat, outcome: ProbeOutcome) -> nat {
    match outcome {
        ProbeOutcome::Healthy => attempts_before,
        ProbeOutcome::Unhealthy => attempts_before + 1,
    }
}

/// Counts the attempts used by a whole run of probes.
pub open spec fn attempts_after(start: nat, outcomes: Seq<ProbeOutcome>) -> nat
    decreases outcomes.len(),
{
    if outcomes.len() == 0 {
        start
    } else {
        attempts_after(step_attempts(start, outcomes[0]), outcomes.drop_first())
    }
}

/// Tracks how many probes of the current `start` operation have failed
/// so far, up to [`ATTEMPT_CEILING`].
pub struct HealthPoller {
    /// Failed probes so far; never exceeds the ceiling.
    pub attempts_used: u32,
}

impl HealthPoller {
    /// A fresh poller for one `start` operation: no attempts used yet.
    pub fn new() -> (p: HealthPoller)
        ensures
            p.attempts_used == 0,
    {
        HealthPoller { attempts_used: 0 }
    }

    /// Records one probe and decides how the poll loop continues: a
    /// healthy probe ends polling at once, an unhealthy one consumes an
    /// attempt and asks for a retry unless it was the last attempt.
    pub fn record_probe(&mut self, outcome: ProbeOutcome) -> (v: PollVerdict)
        requires
            old(self).attempts_used < ATTEMPT_CEILING,
        ensures
            v == step_verdict(old(self).attempts_used as nat, outcome),
            final(self).attempts_used == step_attempts(old(self).attempts_used as nat, outcome),
            final(self).attempts_used <= ATTEMPT_CEILING,
    {
        match outcome {
            ProbeOutcome::Healthy => PollVerdict::Ready,
            ProbeOutcome::Unhealthy => {
                self.attempts_used = self.attempts_used + 1;
                if self.attempts_used < ATTEMPT_CEILING {
                    PollVerdict::Retry
                } else {
                    PollVerdict::TimedOut
                }
            },
        }
    }
}

/// A run of `n` consecutive unhealthy probes.
pub open spec fn unhealthy_run(n: nat) -> Seq<ProbeOutcome> {
    Seq::new(n, |i: int| ProbeOutcome::Unhealthy)
}

/// A run of unhealthy probes consumes exactly one attempt per probe.
pub proof fn lemma_unhealthy_run_attempts(start: nat, n: nat)
    ensures
        attempts_after(start, unhealthy_run(n)) == start + n,
    decreases n,
{
    if n > 0 {
        assert(unhealthy_run(n).drop_first() =~= unhealthy_run((n - 1) as nat));
        lemma_unhealthy_run_attempts(start + 1, (n - 1) as nat);
    }
}

/// A backend that first answers healthily on its `n`-th probe (with
/// `n` within the ceiling) is declared ready: each of the first `n - 1`
/// unhealthy probes yields a retry — so the loop sleeps the fixed
/// interval `n - 1` times before succeeding — and the `n`-th, healthy
/// probe yields `Ready`.
pub proof fn lemma_ready_on_nth_probe(n: nat)
    requires
        1 <= n <= ATTEMPT_CEILING,
    ensures
        forall|i: nat| i < n - 1 ==> step_verdict(i, ProbeOutcome::Unhealthy) == PollVerdict::Retry,
        attempts_after(0, unhealthy_run((n - 1) as nat)) == n - 1,
        step_verdict((n - 1) as nat, ProbeOutcome::Healthy) == PollVerdict::Ready,
{
    lemma_unhealthy_run_attempts(0, (n - 1) as nat);
}

/// A backend that never answers healthily times out after exactly the
/// configured number of attempts: no earlier probe yields `TimedOut`,
/// an unhealthy probe never yields `Ready`, and the final attempt of
/// the budget yields `TimedOut`.
pub proof fn lemma_timeout_exactly_at_ceiling()
    ensures
        forall|i: nat|
            i + 1 < ATTEMPT_CEILING ==> step_verdict(i, ProbeOutcome::Unhealthy)
                == PollVerdict::Retry,
        forall|i: nat| step_verdict(i, ProbeOutcome::Unhealthy) != PollVerdict::Ready,
        step_verdict((ATTEMPT_CEILING - 1) as nat, ProbeOutcome::Unhealthy)
            == PollVerdict::TimedOut,
        attempts_after(0, unhealthy_run(ATTEMPT_CEILING as nat)) == ATTEMPT_CEILING,
{
    lemma_unhealthy_run_attempts(0, ATTEMPT_CEILING as nat);
}

} // verus!
