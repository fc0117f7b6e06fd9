//! The polling wait: retry target resolution at a fixed interval until it
//! succeeds or a deadline passes.
//!
//! The loop driver performs the outside work (capturing, sleeping, reading
//! the clock) and consults the two decision functions here before and after
//! each poll. The deadline is checked *before* each resolution attempt, and
//! a deadline already reached counts as expired, so a zero timeout fails
//! without a single poll or sleep. A poll that fails with `ImageNotFound`
//! is retried after one interval; any other failure aborts at once.
//! [`wait_sim`] is the model of a whole run over a given sequence of poll
//! outcomes.

use vstd::prelude::*;
use crate::error::DroidError;
use crate::geometry::Point;

verus! {

/// What one resolution attempt produced: the resolved point, a retryable
/// miss, or a failure that aborts the wait.
#[derive(Debug, Clone, PartialEq, Eq)]
pub enum PollOutcome {
    Found(Point),
    NotFound,
    Fatal(DroidError),
}

/// What the loop does next after a poll.
#[derive(Debug, Clone, PartialEq, Eq)]
pub enum WaitStep {
    /// The wait is over: return the point.
    Done(Point),
    /// Sleep one interval, then poll again.
    Sleep,
    /// Abort with this error.
    Fail(DroidError),
}

/// The deadline check made before each poll: the wait has expired once the
/// elapsed time has reached the timeout. With a zero timeout the very
/// first check expires, so nothing is ever polled.
pub fn wait_expired(elapsed_ms: u64, timeout_ms: u64) -> (r: bool)
    ensures
        r == (elapsed_ms >= timeout_ms),
{
    elapsed_ms >= timeout_ms
}

/// The decision after one poll: a found target ends the wait immediately
/// (no further sleep), a retryable miss sleeps one interval, anything else
/// aborts with its error.
pub fn wait_step(outcome: PollOutcome) -> (s: WaitStep)
    ensures
        s == match outcome {
            PollOutcome::Found(p) => WaitStep::Done(p),
            PollOutcome::NotFound => WaitStep::Sleep,
            PollOutcome::Fatal(e) => WaitStep::Fail(e),
        },
{
    match outcome {
        PollOutcome::Found(p) => WaitStep::Done(p),
        PollOutcome::NotFound => WaitStep::Sleep,
        PollOutcome::Fatal(e) => WaitStep::Fail(e),
    }
}

/// A whole wait run over a sequence of poll outcomes, with the elapsed
/// time advancing by one interval per retry. A run that outlives its
/// outcomes times out (there is nothing more to observe).
pub open spec fn wait_sim(
    outcomes: Seq<PollOutcome>,
    timeout_ms: u64,
    interval_ms: u64,
    elapsed_ms: int,
) -> Result<Point, DroidError>
    decreases outcomes.len(),
{
    if elapsed_ms >= timeout_ms {
        Err(DroidError::Timeout(timeout_ms))
    } else if outcomes.len() == 0 {
        Err(DroidError::Timeout(timeout_ms))
    } else {
        match outcomes[0] {
            PollOutcome::Found(p) => Ok(p),
            PollOutcome::NotFound => wait_sim(
                outcomes.drop_first(),
                timeout_ms,
                interval_ms,
                elapsed_ms + interval_ms,
            ),
            PollOutcome::Fatal(e) => Err(e),
        }
    }
}

/// A zero timeout times out before anything happens: whatever the device
/// would have shown, the wait returns `Timeout` without one poll.
pub proof fn lemma_wait_zero_timeout(outcomes: Seq<PollOutcome>, interval_ms: u64)
    ensures
        wait_sim(outcomes, 0, interval_ms, 0) == Err::<Point, DroidError>(DroidError::Timeout(0)),
{
}

/// The wait returns on the first successful poll: if the first `k` polls
/// miss, the next one finds the target, and the deadline has not passed by
/// then, the run returns that point - it neither stops early nor waits a
/// further interval.
pub proof fn lemma_wait_first_success(
    outcomes: Seq<PollOutcome>,
    timeout_ms: u64,
    interval_ms: u64,
    elapsed_ms: int,
    k: int,
)
    requires
        0 <= k < outcomes.len(),
        forall|i: int| 0 <= i < k ==> outcomes[i] == PollOutcome::NotFound,
        outcomes[k] is Found,
        elapsed_ms >= 0,
        elapsed_ms + k * interval_ms < timeout_ms,
    ensures
        wait_sim(outcomes, timeout_ms, interval_ms, elapsed_ms) == Ok::<Point, DroidError>(
            outcomes[k]->Found_0,
        ),
    decreases k,
{
    if k == 0 {
    } else {
        assert(outcomes[0] == PollOutcome::NotFound);
        assert((k - 1) * interval_ms == k * interval_ms - interval_ms) by (nonlinear_arith);
        lemma_wait_first_success(
            outcomes.drop_first(),
            timeout_ms,
            interval_ms,
            elapsed_ms + interval_ms,
            k - 1,
        );
        assert(outcomes.drop_first()[k - 1] == outcomes[k]);
    }
}

} // verus!
