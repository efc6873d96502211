use valyu::{wait_step, DeepResearchStatus, ValyuError, WaitStep};

/// Runs the waiter's decisions over polled statuses with a clock that moves
/// only while sleeping; gives the last decision and the number of sleeps.
fn run(polls: &[(Option<DeepResearchStatus>, Option<&str>)], interval: u64, max: u64) -> (WaitStep, u64) {
    let mut sleeps: u64 = 0;
    for (status, error) in polls {
        let elapsed = (sleeps as u128) * (interval as u128) * 1_000_000_000;
        let error = error.map(|e| e.to_string());
        match wait_step(status, &error, elapsed, max) {
            WaitStep::Sleep => sleeps += 1,
            done => return (done, sleeps),
        }
    }
    panic!("the polls ran out");
}

#[test]
fn completes_after_two_intervals() {
    let polls = [
        (Some(DeepResearchStatus::Queued), None),
        (Some(DeepResearchStatus::Running), None),
        (Some(DeepResearchStatus::Completed), None),
    ];
    let (step, sleeps) = run(&polls, 5, 900);
    assert!(matches!(step, WaitStep::Finish));
    assert_eq!(sleeps, 2);
}

#[test]
fn never_terminal_times_out() {
    let polls = [(Some(DeepResearchStatus::Running), None); 6];
    let (step, sleeps) = run(&polls, 2, 5);
    match step {
        WaitStep::Fail(ValyuError::ApiError(s)) => assert_eq!(s, "Maximum wait time of 5 seconds exceeded"),
        other => panic!("unexpected {:?}", other),
    }
    assert_eq!(sleeps, 3);
}

#[test]
fn missing_status_keeps_waiting() {
    assert!(matches!(wait_step(&None, &None, 0, 10), WaitStep::Sleep));
    assert!(matches!(wait_step(&None, &None, 10_000_000_000, 10), WaitStep::Sleep));
    assert!(matches!(wait_step(&None, &None, 10_000_000_001, 10), WaitStep::Fail(_)));
}

#[test]
fn failed_stops_at_once_with_its_error() {
    let polls = [
        (Some(DeepResearchStatus::Failed), Some("out of sources")),
        (Some(DeepResearchStatus::Completed), None),
    ];
    let (step, sleeps) = run(&polls, 5, 900);
    match step {
        WaitStep::Fail(ValyuError::ApiError(s)) => assert_eq!(s, "out of sources"),
        other => panic!("unexpected {:?}", other),
    }
    assert_eq!(sleeps, 0);
    match wait_step(&Some(DeepResearchStatus::Failed), &None, 0, 1) {
        WaitStep::Fail(ValyuError::ApiError(s)) => assert_eq!(s, "Task failed"),
        other => panic!("unexpected {:?}", other),
    }
}

#[test]
fn cancelled_stops_with_fixed_message() {
    match wait_step(&Some(DeepResearchStatus::Cancelled), &Some("x".to_string()), 0, 1) {
        WaitStep::Fail(ValyuError::ApiError(s)) => assert_eq!(s, "Task was cancelled"),
        other => panic!("unexpected {:?}", other),
    }
}
