use pulse_events::bootstrap::{bootstrap_outcome, bootstrap_step, run_step, subscription_step,
    BootstrapResult, BootstrapStep, ConnectionState, IterateOutcome, RunStep};

#[test]
fn iterate_failure_is_fatal_before_the_state_is_read() {
    assert_eq!(
        bootstrap_step(IterateOutcome::Ended, ConnectionState::Ready),
        BootstrapStep::FatalIterate
    );
    assert_eq!(
        bootstrap_step(IterateOutcome::Errored, ConnectionState::Connecting),
        BootstrapStep::FatalIterate
    );
}

#[test]
fn ready_state_proceeds_to_subscription() {
    assert_eq!(
        bootstrap_step(IterateOutcome::Progressed, ConnectionState::Ready),
        BootstrapStep::Proceed
    );
}

#[test]
fn failed_or_terminated_state_is_fatal() {
    assert_eq!(
        bootstrap_step(IterateOutcome::Progressed, ConnectionState::Failed),
        BootstrapStep::FatalState
    );
    assert_eq!(
        bootstrap_step(IterateOutcome::Progressed, ConnectionState::Terminated),
        BootstrapStep::FatalState
    );
}

#[test]
fn transitional_state_keeps_polling() {
    assert_eq!(
        bootstrap_step(IterateOutcome::Progressed, ConnectionState::Connecting),
        BootstrapStep::Continue
    );
}

#[test]
fn scenario_failure_during_bring_up_never_subscribes() {
    let obs = vec![
        (IterateOutcome::Progressed, ConnectionState::Connecting),
        (IterateOutcome::Progressed, ConnectionState::Connecting),
        (IterateOutcome::Progressed, ConnectionState::Failed),
    ];
    let outcome = bootstrap_outcome(&obs);
    assert_eq!(outcome, BootstrapResult::FatalState);
    assert_ne!(outcome, BootstrapResult::Ready);
}

#[test]
fn bring_up_reaches_ready_after_transitional_states() {
    let obs = vec![
        (IterateOutcome::Progressed, ConnectionState::Connecting),
        (IterateOutcome::Progressed, ConnectionState::Connecting),
        (IterateOutcome::Progressed, ConnectionState::Ready),
    ];
    assert_eq!(bootstrap_outcome(&obs), BootstrapResult::Ready);
}

#[test]
fn bring_up_stops_at_the_first_decisive_observation() {
    let obs = vec![
        (IterateOutcome::Progressed, ConnectionState::Connecting),
        (IterateOutcome::Ended, ConnectionState::Ready),
        (IterateOutcome::Progressed, ConnectionState::Ready),
    ];
    assert_eq!(bootstrap_outcome(&obs), BootstrapResult::FatalIterate);
}

#[test]
fn bring_up_with_no_decisive_observation_is_pending() {
    assert_eq!(bootstrap_outcome(&Vec::new()), BootstrapResult::Pending);
    let obs = vec![
        (IterateOutcome::Progressed, ConnectionState::Connecting),
        (IterateOutcome::Progressed, ConnectionState::Connecting),
    ];
    assert_eq!(bootstrap_outcome(&obs), BootstrapResult::Pending);
}

#[test]
fn running_loop_shuts_down_on_iterate_failure_only() {
    assert_eq!(run_step(IterateOutcome::Progressed), RunStep::Continue);
    assert_eq!(run_step(IterateOutcome::Ended), RunStep::FatalShutdown);
    assert_eq!(run_step(IterateOutcome::Errored), RunStep::FatalShutdown);
}

#[test]
fn subscription_failure_is_fatal_and_success_is_not() {
    assert!(subscription_step(false));
    assert!(!subscription_step(true));
}
