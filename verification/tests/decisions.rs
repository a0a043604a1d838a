use stoppable_thread_pool::aggregate::{aggregate, observe_step, ObserveAction};
use stoppable_thread_pool::supervisor::{supervisor_report, RaceOutcome};

#[test]
fn supervisor_forwards_work_success() {
    let report: Result<(), String> = supervisor_report(RaceOutcome::WorkFinished(Ok(())));
    assert_eq!(report, Ok(()));
}

#[test]
fn supervisor_forwards_work_failure() {
    let report: Result<(), String> =
        supervisor_report(RaceOutcome::WorkFinished(Err("boom".to_string())));
    assert_eq!(report, Err("boom".to_string()));
}

#[test]
fn supervisor_acknowledges_stop_with_success() {
    let report: Result<(), String> = supervisor_report(RaceOutcome::StopReceived);
    assert_eq!(report, Ok(()));
}

#[test]
fn step_keeps_waiting_before_the_count_is_reached() {
    let action: ObserveAction<String> = observe_step(3, 0, Ok(()));
    assert!(matches!(action, ObserveAction::Pending));
}

#[test]
fn step_succeeds_on_the_last_needed_success() {
    let action: ObserveAction<String> = observe_step(3, 2, Ok(()));
    assert!(matches!(action, ObserveAction::Succeed));
}

#[test]
fn step_fails_and_broadcasts_on_an_error() {
    let action: ObserveAction<String> = observe_step(3, 2, Err("boom".to_string()));
    match action {
        ObserveAction::Fail(reason) => assert_eq!(reason, "boom".to_string()),
        _ => panic!("an error must decide the group outcome"),
    }
}

#[test]
fn aggregate_counts_every_success() {
    let events: Vec<Result<(), String>> = vec![Ok(()), Ok(()), Ok(())];
    assert_eq!(aggregate(3, events), Some(Ok(())));
}

#[test]
fn aggregate_reports_the_first_error() {
    let events: Vec<Result<(), String>> = vec![Ok(()), Err("early".to_string()), Ok(())];
    assert_eq!(aggregate(4, events), Some(Err("early".to_string())));
}

#[test]
fn aggregate_waits_when_results_run_out() {
    let events: Vec<Result<(), String>> = vec![Ok(())];
    assert_eq!(aggregate(2, events), None);
}
