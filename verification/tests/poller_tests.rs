use testnet_orchestrator::errors::WaitTimeoutError;
use testnet_orchestrator::poller::{
    block_height_reached, cardinality_reached, evaluate_metric_polls, metric_threshold_reached,
    poll_step, run_poll_schedule, scan_block_heights, PollBudget, PollDecision,
};

#[test]
fn height_wait_ends_at_the_first_header_reaching_the_target() {
    // Heights 1, 2, 2, 5: the wait for 3 ends on the header of height 5,
    // not before.
    let heights = vec![1, 2, 2, 5];
    assert_eq!(scan_block_heights(&heights, 3), Some(3));
    assert_eq!(scan_block_heights(&heights, 1), Some(0));
    assert_eq!(scan_block_heights(&heights, 2), Some(1));
}

#[test]
fn height_wait_never_ends_without_a_satisfying_header() {
    assert_eq!(scan_block_heights(&vec![1, 2, 2], 3), None);
    assert_eq!(scan_block_heights(&vec![], 1), None);
}

#[test]
fn duplicate_heights_are_tolerated() {
    assert_eq!(scan_block_heights(&vec![2, 2, 2], 2), Some(0));
}

#[test]
fn metric_wait_ends_on_the_fifth_poll_of_the_stub_sequence() {
    // Polls return 0, 0, 3, 3, 7; target 5 is reached on the fifth poll
    // (value 7), with a sleep after each of the four unsatisfied polls.
    let samples = vec![0, 0, 3, 3, 7];
    assert_eq!(evaluate_metric_polls(&samples, 5), Some(4));
    assert_eq!(evaluate_metric_polls(&samples, 3), Some(2));
    assert_eq!(evaluate_metric_polls(&samples, 8), None);
}

#[test]
fn budgeted_wait_succeeds_within_the_budget() {
    let samples = vec![0, 0, 3, 3, 7];
    let budget = PollBudget { max_attempts: 10, interval_secs: 10 };
    assert_eq!(run_poll_schedule(&samples, 5, &budget), Ok(4));
}

#[test]
fn budgeted_wait_times_out_instead_of_hanging() {
    let samples = vec![0, 0, 3, 3, 7];
    let budget = PollBudget { max_attempts: 3, interval_secs: 10 };
    assert_eq!(
        run_poll_schedule(&samples, 5, &budget),
        Err(WaitTimeoutError { attempts_made: 3 })
    );
    let short = vec![0, 0];
    let budget = PollBudget { max_attempts: 10, interval_secs: 10 };
    assert_eq!(
        run_poll_schedule(&short, 5, &budget),
        Err(WaitTimeoutError { attempts_made: 2 })
    );
}

#[test]
fn the_standard_budget_polls_every_ten_seconds_with_a_cap() {
    let b = PollBudget::standard();
    assert_eq!(b.interval_secs, 10);
    assert_eq!(b.max_attempts, 360);
}

#[test]
fn poll_step_decides_each_sample() {
    let budget = PollBudget { max_attempts: 3, interval_secs: 10 };
    assert_eq!(poll_step(true, 0, &budget), PollDecision::Satisfied);
    assert_eq!(poll_step(false, 0, &budget), PollDecision::RetryAfterSleep);
    assert_eq!(poll_step(false, 1, &budget), PollDecision::RetryAfterSleep);
    assert_eq!(poll_step(false, 2, &budget), PollDecision::TimedOut);
    assert_eq!(poll_step(true, 2, &budget), PollDecision::Satisfied);
    let none = PollBudget { max_attempts: 0, interval_secs: 10 };
    assert_eq!(poll_step(false, 0, &none), PollDecision::TimedOut);
}

#[test]
fn the_three_comparisons_are_at_least_never_equality() {
    assert!(block_height_reached(5, 3));
    assert!(block_height_reached(3, 3));
    assert!(!block_height_reached(2, 3));
    assert!(metric_threshold_reached(7, 5));
    assert!(!metric_threshold_reached(4, 5));
    assert!(cardinality_reached(1, 1));
    assert!(cardinality_reached(2, 1));
    assert!(!cardinality_reached(0, 1));
}
