use gs_visualizer::runtime::{bridge_result, outcome_from_join, outcome_from_signal, BridgeOutcome, SleepPlan, SLEEP_SLICE_NANOS};
use gs_visualizer::BridgeError;

#[test]
fn ctrl_c_shuts_down_cleanly() {
    let outcome = outcome_from_signal(Ok(())).ok().expect("outcome");
    assert!(matches!(outcome, BridgeOutcome::Shutdown));
    assert!(bridge_result(outcome).is_ok());
    let err = outcome_from_signal(Err(std::io::Error::from(std::io::ErrorKind::Other)));
    assert!(matches!(err, Err(BridgeError::Io(_))));
}

#[test]
fn worker_result_is_returned() {
    let outcome = outcome_from_join(Some(Ok(Err(BridgeError::Argument("x".to_string()))))).ok().expect("outcome");
    assert!(matches!(bridge_result(outcome), Err(BridgeError::Argument(m)) if m == "x"));
    let outcome = outcome_from_join(None).ok().expect("outcome");
    assert!(bridge_result(outcome).is_ok());
}

#[test]
fn sleeps_in_slices_that_add_up() {
    let total: u128 = 2 * SLEEP_SLICE_NANOS as u128 + 7;
    let mut plan = SleepPlan::new(total);
    let mut slices = Vec::new();
    while let Some(step) = plan.next_slice() {
        slices.push(step);
    }
    assert_eq!(slices, vec![SLEEP_SLICE_NANOS, SLEEP_SLICE_NANOS, 7]);
    assert_eq!(SleepPlan::new(0).next_slice(), None);
}
