//! Dependent processes: the dependency capability and its wait
//! protocol.
//!
//! Useful when a long-running process depends on something else to
//! start properly, such as an HTTP service being available or a file
//! existing. A dependency is polled at a fixed interval until it is
//! up, turns the probe down, or the deadline passes. The protocol —
//! what each observation means and when the loop stops — is decided
//! here; the host application only performs the probes and the
//! sleeps.

use vstd::prelude::*;

verus! {

/// Fixed poll interval of every dependency probe, in milliseconds.
pub const POLL_INTERVAL_MS: u64 = 250;

/// Terminal failure of a dependency wait.
#[derive(Clone, Copy, Debug, PartialEq, Eq, Structural)]
pub enum WaitError {
    /// The target answered and turned the probe down (e.g. an HTTP
    /// error status). The target is reachable but broken — different
    /// from "not yet up" — so this is fatal at once; retrying would
    /// mask a real failure.
    Rejection,
    /// The target did not become available within the deadline.
    Timeout,
    /// The target's address could not be parsed.
    InvalidTarget,
}

/// Implemented by the error a dependency's `wait` reports.
pub trait DependencyWaitError {
    /// A human-readable description of the failure.
    fn message(&self) -> String;
}

impl DependencyWaitError for WaitError {
    fn message(&self) -> String {
        match self {
            WaitError::Rejection => "Rejection".to_owned(),
            WaitError::Timeout => "Timeout".to_owned(),
            WaitError::InvalidTarget => "Invalid target".to_owned(),
        }
    }
}

/// Dependency trait: something a process must wait for before it
/// starts.
///
/// Implementations own the probing I/O, so they live with the host
/// application; the wait protocol they follow is
/// [`run_wait`](run_wait) / [`wait_step`](wait_step).
pub trait Dependency {
    /// A tag used as an identificator in output when the dependent
    /// process runs as part of a pool.
    fn tag(&self) -> String;

    /// A one-shot probe: is the dependency available right now?
    fn check(&self) -> Result<(), ()>;

    /// Blocks until the dependency becomes available or fails for
    /// good; it never returns while the dependency is still pending.
    fn wait(&self) -> Result<(), WaitError>;
}

/// One observation of a dependency's target.
#[derive(Clone, Copy, Debug, PartialEq, Eq, Structural)]
pub enum ProbeSample {
    /// The target is up.
    Ready,
    /// The target is not reachable yet.
    NotReady,
    /// The target answered and refused.
    Rejected,
}

/// What the wait loop does after one observation.
#[derive(Clone, Copy, Debug, PartialEq, Eq, Structural)]
pub enum WaitDecision {
    /// Return success.
    Succeed,
    /// Return this failure.
    Fail(WaitError),
    /// Sleep one poll interval and probe again.
    Poll,
}

/// The decision the wait protocol takes after observing `sample` with
/// `elapsed_ms` of the budget spent: success and rejection are
/// terminal at once; an unreachable target times out exactly when the
/// deadline is spent, and is polled again otherwise.
pub open spec fn wait_step_spec(sample: ProbeSample, elapsed_ms: u64, timeout_ms: u64) -> WaitDecision {
    match sample {
        ProbeSample::Ready => WaitDecision::Succeed,
        ProbeSample::Rejected => WaitDecision::Fail(WaitError::Rejection),
        ProbeSample::NotReady => if elapsed_ms >= timeout_ms {
            WaitDecision::Fail(WaitError::Timeout)
        } else {
            WaitDecision::Poll
        },
    }
}

/// One step of the wait protocol; the host calls this after every
/// probe and acts on the decision.
pub fn wait_step(sample: ProbeSample, elapsed_ms: u64, timeout_ms: u64) -> (d: WaitDecision)
    ensures
        d == wait_step_spec(sample, elapsed_ms, timeout_ms),
{
    match sample {
        ProbeSample::Ready => WaitDecision::Succeed,
        ProbeSample::Rejected => WaitDecision::Fail(WaitError::Rejection),
        ProbeSample::NotReady => {
            if elapsed_ms >= timeout_ms {
                WaitDecision::Fail(WaitError::Timeout)
            } else {
                WaitDecision::Poll
            }
        },
    }
}

/// Outcome and return time of the whole wait loop on a trace of
/// observations, polling from observation `i` with `elapsed` of the
/// budget spent. Observation `j` is what the probe sees at time
/// `elapsed + (j - i) * poll`; observations beyond the trace count as
/// not ready.
pub open spec fn wait_from(
    trace: Seq<ProbeSample>,
    timeout: int,
    poll: int,
    i: int,
    elapsed: int,
) -> (Result<(), WaitError>, int)
    decreases timeout + poll - elapsed,
        when poll >= 1
{
    let sample = if 0 <= i < trace.len() {
        trace[i]
    } else {
        ProbeSample::NotReady
    };
    match sample {
        ProbeSample::Ready => (Ok(()), elapsed),
        ProbeSample::Rejected => (Err(WaitError::Rejection), elapsed),
        ProbeSample::NotReady => if elapsed >= timeout {
            (Err(WaitError::Timeout), elapsed)
        } else {
            wait_from(trace, timeout, poll, i + 1, elapsed + poll)
        },
    }
}

/// Past the end of the trace every observation is not ready, so where
/// the loop stands in the trace no longer matters.
proof fn lemma_wait_from_tail(trace: Seq<ProbeSample>, timeout: int, poll: int, i: int, j: int, elapsed: int)
    requires
        1 <= poll,
        trace.len() <= i,
        trace.len() <= j,
    ensures
        wait_from(trace, timeout, poll, i, elapsed) == wait_from(trace, timeout, poll, j, elapsed),
    decreases timeout + poll - elapsed,
{
    if elapsed < timeout {
        lemma_wait_from_tail(trace, timeout, poll, i + 1, j + 1, elapsed + poll);
    }
}

/// What one run of the wait loop did: its result, and the time spent
/// before returning, in milliseconds.
#[derive(Debug, PartialEq, Eq)]
pub struct WaitReport {
    pub result: Result<(), WaitError>,
    pub elapsed_ms: u64,
}

/// Runs the wait protocol over a trace of observations: observation
/// `i` is what the probe sees at time `i * poll_ms`, and observations
/// past the end of the trace count as not ready, so every finite
/// trace resolves to success, rejection, or a timeout — never to a
/// pending state.
pub fn run_wait(trace: &Vec<ProbeSample>, timeout_ms: u64, poll_ms: u64) -> (r: WaitReport)
    requires
        1 <= poll_ms,
        timeout_ms + poll_ms <= u64::MAX,
    ensures
        (r.result, r.elapsed_ms as int) == wait_from(
            trace@,
            timeout_ms as int,
            poll_ms as int,
            0,
            0,
        ),
{
    let n = trace.len();
    let mut i: usize = 0;
    let mut elapsed: u64 = 0;
    loop
        invariant
            1 <= poll_ms,
            timeout_ms + poll_ms <= u64::MAX,
            elapsed < timeout_ms + poll_ms,
            i <= n,
            n == trace@.len(),
            wait_from(trace@, timeout_ms as int, poll_ms as int, 0, 0) == wait_from(
                trace@,
                timeout_ms as int,
                poll_ms as int,
                i as int,
                elapsed as int,
            ),
        decreases timeout_ms + poll_ms - elapsed,
    {
        let sample = if i < n {
            trace[i]
        } else {
            ProbeSample::NotReady
        };
        match wait_step(sample, elapsed, timeout_ms) {
            WaitDecision::Succeed => {
                return WaitReport { result: Ok(()), elapsed_ms: elapsed };
            },
            WaitDecision::Fail(e) => {
                return WaitReport { result: Err(e), elapsed_ms: elapsed };
            },
            WaitDecision::Poll => {
                elapsed = elapsed + poll_ms;
                if i < n {
                    i = i + 1;
                } else {
                    proof {
                        lemma_wait_from_tail(
                            trace@,
                            timeout_ms as int,
                            poll_ms as int,
                            i + 1,
                            i as int,
                            elapsed as int,
                        );
                    }
                }
            },
        }
    }
}

/// A dependency that is already satisfied at the first poll succeeds
/// at once, with no time spent waiting.
pub proof fn lemma_wait_ready_at_once(trace: Seq<ProbeSample>, timeout: int, poll: int)
    requires
        1 <= poll,
        trace.len() > 0,
        trace[0] == ProbeSample::Ready,
    ensures
        wait_from(trace, timeout, poll, 0, 0) == (Ok::<(), WaitError>(()), 0int),
{
}

/// A target that never answers makes the wait time out, no earlier
/// than the deadline and no later than one poll interval past it.
pub proof fn lemma_wait_unreachable_times_out(
    trace: Seq<ProbeSample>,
    timeout: int,
    poll: int,
    i: int,
    elapsed: int,
)
    requires
        1 <= poll,
        elapsed < timeout + poll,
        forall|j: int| 0 <= j < trace.len() ==> trace[j] == ProbeSample::NotReady,
    ensures
        ({
            let (res, at) = wait_from(trace, timeout, poll, i, elapsed);
            res == Err::<(), WaitError>(WaitError::Timeout) && timeout <= at < timeout + poll
        }),
    decreases timeout + poll - elapsed,
{
    if elapsed < timeout {
        lemma_wait_unreachable_times_out(trace, timeout, poll, i + 1, elapsed + poll);
    }
}

/// A rejected probe fails the wait at once, at the poll that saw it —
/// `k` polls in, after `k` sleep intervals — rather than holding out
/// for the deadline.
pub proof fn lemma_wait_rejected_at_once(
    trace: Seq<ProbeSample>,
    timeout: int,
    poll: int,
    i: int,
    elapsed: int,
    k: int,
)
    requires
        1 <= poll,
        0 <= i <= k < trace.len(),
        forall|j: int| i <= j < k ==> trace[j] == ProbeSample::NotReady,
        trace[k] == ProbeSample::Rejected,
        elapsed + (k - i) * poll < timeout + poll,
    ensures
        wait_from(trace, timeout, poll, i, elapsed) == (
            Err::<(), WaitError>(WaitError::Rejection),
            elapsed + (k - i) * poll,
        ),
    decreases k - i,
{
    if i == k {
        assert((k - i) * poll == 0) by (nonlinear_arith)
            requires
                i == k,
        ;
    } else {
        assert(elapsed < timeout) by (nonlinear_arith)
            requires
                1 <= poll,
                i < k,
                elapsed + (k - i) * poll < timeout + poll,
        ;
        assert(elapsed + poll + (k - (i + 1)) * poll == elapsed + (k - i) * poll)
            by (nonlinear_arith);
        lemma_wait_rejected_at_once(trace, timeout, poll, i + 1, elapsed + poll, k);
    }
}

} // verus!
