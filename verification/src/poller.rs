//! Convergence polling: decide when a wait is over.
//!
//! All three wait primitives share one shape: sample an observable, compare
//! it to a target, sleep a fixed interval, try again — up to an attempt
//! budget, after which the wait fails with a timeout instead of hanging
//! forever. Sampling and sleeping are outer-layer work; each sample comes
//! back here as a plain value and leaves as a decision.

use vstd::prelude::*;
use crate::errors::WaitTimeoutError;

verus! {

/// The reference cadence: one sample every ten seconds.
pub const DEFAULT_POLL_INTERVAL_SECS: u64 = 10;

/// The default attempt cap: an hour of ten-second polls.
pub const DEFAULT_MAX_POLL_ATTEMPTS: usize = 360;

/// The retry budget of one wait: how many samples may be taken, and how long
/// the outer layer sleeps between two of them.
#[derive(Clone, Copy, Debug, PartialEq, Eq, Structural)]
pub struct PollBudget {
    pub max_attempts: usize,
    pub interval_secs: u64,
}

impl PollBudget {
    /// The reference budget: ten-second polls, capped after an hour.
    pub fn standard() -> (b: PollBudget)
        ensures
            b.max_attempts == DEFAULT_MAX_POLL_ATTEMPTS,
            b.interval_secs == DEFAULT_POLL_INTERVAL_SECS,
    {
        PollBudget {
            max_attempts: DEFAULT_MAX_POLL_ATTEMPTS,
            interval_secs: DEFAULT_POLL_INTERVAL_SECS,
        }
    }
}

/// What to do after one sample.
#[derive(Clone, Copy, Debug, PartialEq, Eq, Structural)]
pub enum PollDecision {
    /// The condition holds; the wait is over.
    Satisfied,
    /// The condition does not hold yet; sleep one interval and sample again.
    RetryAfterSleep,
    /// The condition does not hold and the budget is spent; fail the wait.
    TimedOut,
}

/// A block-header subscription satisfies a height wait exactly when a header
/// of at least the target height has been observed. Heights arrive in
/// non-decreasing order with duplicates possible, hence at-least, never
/// equality.
pub fn block_height_reached(observed: u32, target: u32) -> (b: bool)
    ensures
        b == (observed >= target),
{
    observed >= target
}

/// A metric wait is satisfied exactly when the sampled value has reached the
/// target.
pub fn metric_threshold_reached(current: u64, target: u64) -> (b: bool)
    ensures
        b == (current >= target),
{
    current >= target
}

/// A state wait over a queried set is satisfied exactly when the set has
/// reached the wanted cardinality.
pub fn cardinality_reached(len: usize, want: usize) -> (b: bool)
    ensures
        b == (len >= want),
{
    len >= want
}

/// Decide the wait after one sample: `satisfied` ends it, an unsatisfied
/// sample within the budget sleeps and retries, and the last budgeted
/// attempt, unsatisfied, times out. `attempts_made` counts the samples taken
/// before this one.
pub fn poll_step(satisfied: bool, attempts_made: usize, budget: &PollBudget) -> (d: PollDecision)
    ensures
        (d == PollDecision::Satisfied) == satisfied,
        (d == PollDecision::TimedOut) == (!satisfied && attempts_made + 1 >= budget.max_attempts),
        (d == PollDecision::RetryAfterSleep) == (!satisfied && attempts_made + 1
            < budget.max_attempts),
{
    if satisfied {
        PollDecision::Satisfied
    } else if budget.max_attempts == 0 || attempts_made >= budget.max_attempts - 1 {
        PollDecision::TimedOut
    } else {
        PollDecision::RetryAfterSleep
    }
}

/// Replay a height wait over the headers a subscription delivered, oldest
/// first: the wait ends at the first header whose height reaches the target,
/// and never before one has been observed. Returns the index of that header,
/// or `None` when no delivered header reached the target.
pub fn scan_block_heights(heights: &Vec<u32>, target: u32) -> (r: Option<usize>)
    ensures
        match r {
            Some(i) => {
                &&& 0 <= i < heights@.len()
                &&& heights@[i as int] >= target
                &&& forall|j: int| 0 <= j < i ==> heights@[j] < target
            },
            None => forall|j: int| 0 <= j < heights@.len() ==> heights@[j] < target,
        },
{
    let mut i: usize = 0;
    while i < heights.len()
        invariant
            0 <= i <= heights@.len(),
            forall|j: int| 0 <= j < i ==> heights@[j] < target,
        decreases heights@.len() - i,
    {
        if block_height_reached(heights[i], target) {
            return Some(i);
        }
        i = i + 1;
    }
    None
}

/// Replay a metric wait over the values successive polls returned, first poll
/// first: the wait ends at the first poll whose value reaches the target,
/// having slept once after each unsatisfied poll before it. Returns the index
/// of that poll, or `None` when no poll reached the target.
pub fn evaluate_metric_polls(samples: &Vec<u64>, target: u64) -> (r: Option<usize>)
    ensures
        match r {
            Some(i) => {
                &&& 0 <= i < samples@.len()
                &&& samples@[i as int] >= target
                &&& forall|j: int| 0 <= j < i ==> samples@[j] < target
            },
            None => forall|j: int| 0 <= j < samples@.len() ==> samples@[j] < target,
        },
{
    let mut i: usize = 0;
    while i < samples.len()
        invariant
            0 <= i <= samples@.len(),
            forall|j: int| 0 <= j < i ==> samples@[j] < target,
        decreases samples@.len() - i,
    {
        if metric_threshold_reached(samples[i], target) {
            return Some(i);
        }
        i = i + 1;
    }
    None
}

/// The budgeted wait over a recorded sample sequence: succeed with the index
/// of the first in-budget sample that reaches the target, or time out after
/// the budget is spent (or the record ends) with the number of samples taken.
pub fn run_poll_schedule(samples: &Vec<u64>, target: u64, budget: &PollBudget) -> (r: Result<
    usize,
    WaitTimeoutError,
>)
    ensures
        match r {
            Ok(i) => {
                &&& 0 <= i < samples@.len()
                &&& i < budget.max_attempts
                &&& samples@[i as int] >= target
                &&& forall|j: int| 0 <= j < i ==> samples@[j] < target
            },
            Err(e) => {
                &&& e.attempts_made == vstd::math::min(
                    samples@.len() as int,
                    budget.max_attempts as int,
                )
                &&& forall|j: int|
                    0 <= j < e.attempts_made ==> samples@[j] < target
            },
        },
{
    let mut i: usize = 0;
    while i < samples.len() && i < budget.max_attempts
        invariant
            0 <= i <= samples@.len(),
            i <= budget.max_attempts,
            forall|j: int| 0 <= j < i ==> samples@[j] < target,
        decreases samples@.len() - i,
    {
        if metric_threshold_reached(samples[i], target) {
            return Ok(i);
        }
        i = i + 1;
    }
    Err(WaitTimeoutError { attempts_made: i })
}

} // verus!
