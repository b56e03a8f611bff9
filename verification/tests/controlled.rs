use inspector::{
    completed_execution, suspended_execution, ControlledExecutionResult, ControlledInspector, ExecutionControl,
    InMemoryExecutionSnapshot, SnapshotEnvelope, StepAction,
};

#[derive(Clone, Debug, PartialEq)]
struct NoOpInspector;

#[test]
fn step_limit_sets_suspend_action_and_tracks_steps() {
    let mut inspector =
        ControlledInspector::new(NoOpInspector, ExecutionControl { max_steps: Some(1) }, 0);

    let action = inspector.step_end();

    assert!(matches!(action, StepAction::Suspend));

    let (_inner, steps_in_run, total_steps, step_limit) = inspector.into_parts();
    assert_eq!(steps_in_run, 1);
    assert_eq!(total_steps, 1);
    assert_eq!(step_limit, Some(1));
}

#[test]
fn step_limit_is_recorded_once() {
    let mut inspector =
        ControlledInspector::new(NoOpInspector, ExecutionControl { max_steps: Some(1) }, 0);

    inspector.step_end();
    inspector.step_end();

    let (_inner, steps_in_run, total_steps, step_limit) = inspector.into_parts();
    assert_eq!(steps_in_run, 2);
    assert_eq!(total_steps, 2);
    assert_eq!(step_limit, Some(1));
}

#[test]
fn second_suspension_is_never_requested() {
    let mut inspector =
        ControlledInspector::new(NoOpInspector, ExecutionControl { max_steps: Some(1) }, 0);
    assert_eq!(inspector.step_end(), StepAction::Suspend);
    for _ in 0..10 {
        assert_eq!(inspector.step_end(), StepAction::Continue);
    }
    let (_, steps_in_run, total_steps, step_limit) = inspector.into_parts();
    assert_eq!((steps_in_run, total_steps, step_limit), (11, 11, Some(1)));
}

#[test]
fn fresh_inspector_has_no_steps() {
    let inspector = ControlledInspector::new(7u32, ExecutionControl { max_steps: Some(5) }, 42);
    assert_eq!(inspector.into_parts(), (7u32, 0, 42, None));
}

#[test]
fn unbounded_segment_never_suspends() {
    let mut inspector = ControlledInspector::new(NoOpInspector, ExecutionControl::default(), 3);
    for _ in 0..1000 {
        assert_eq!(inspector.step_end(), StepAction::Continue);
    }
    let (inner, steps_in_run, total_steps, step_limit) = inspector.into_parts();
    assert_eq!(inner, NoOpInspector);
    assert_eq!((steps_in_run, total_steps, step_limit), (1000, 1003, None));
}

#[test]
fn bounded_segment_suspends_exactly_at_its_limit() {
    let mut inspector =
        ControlledInspector::new(NoOpInspector, ExecutionControl { max_steps: Some(3) }, 10);
    assert_eq!(inspector.step_end(), StepAction::Continue);
    assert_eq!(inspector.step_end(), StepAction::Continue);
    let snapshot = inspector.clone();
    assert_eq!(inspector.step_end(), StepAction::Suspend);
    assert_eq!(inspector.step_end(), StepAction::Continue);
    assert_eq!(inspector.into_parts(), (NoOpInspector, 4, 14, Some(3)));
    assert_eq!(snapshot.into_parts(), (NoOpInspector, 2, 12, None));
}

#[test]
fn zero_limit_suspends_before_the_first_opcode() {
    let mut inspector =
        ControlledInspector::new(NoOpInspector, ExecutionControl { max_steps: Some(0) }, 0);
    assert_eq!(inspector.step(), StepAction::Suspend);
    assert_eq!(inspector.into_parts(), (NoOpInspector, 0, 0, Some(0)));
}

#[test]
fn hooks_suspend_after_exactly_limit_steps() {
    let mut inspector =
        ControlledInspector::new(NoOpInspector, ExecutionControl { max_steps: Some(2) }, 7);
    assert_eq!(inspector.step(), StepAction::Continue);
    assert_eq!(inspector.step_end(), StepAction::Continue);
    assert_eq!(inspector.step(), StepAction::Continue);
    assert_eq!(inspector.step_end(), StepAction::Suspend);
    assert_eq!(inspector.step(), StepAction::Continue);
    assert_eq!(inspector.into_parts(), (NoOpInspector, 2, 9, Some(2)));
}

#[test]
fn step_start_counts_nothing() {
    let mut inspector =
        ControlledInspector::new(NoOpInspector, ExecutionControl { max_steps: Some(5) }, 1);
    for _ in 0..10 {
        assert_eq!(inspector.step(), StepAction::Continue);
    }
    assert_eq!(inspector.into_parts(), (NoOpInspector, 0, 1, None));
}

#[test]
fn inner_inspector_is_reachable_for_forwarding() {
    let mut inspector = ControlledInspector::new(vec![1u8], ExecutionControl { max_steps: Some(1) }, 0);
    inspector.inner_mut().push(2);
    assert_eq!(inspector.step_end(), StepAction::Suspend);
    inspector.inner_mut().push(3);
    assert_eq!(inspector.into_parts(), (vec![1u8, 2, 3], 1, 1, Some(1)));
}

#[test]
fn completed_segment_hands_back_the_inner_inspector() {
    let mut inspector = ControlledInspector::new(5u16, ExecutionControl { max_steps: None }, 0);
    inspector.step();
    inspector.step_end();
    let (inner, result): (u16, ControlledExecutionResult<&str, ()>) =
        completed_execution(inspector, "done");
    assert_eq!(inner, 5);
    match result {
        ControlledExecutionResult::Completed(r) => assert_eq!(r, "done"),
        ControlledExecutionResult::Suspended(_) => panic!("expected a completed result"),
    }
}

#[test]
fn counters_saturate_at_u64_max() {
    let mut inspector = ControlledInspector::new(
        NoOpInspector,
        ExecutionControl { max_steps: Some(u64::MAX) },
        u64::MAX - 1,
    );
    assert_eq!(inspector.step_end(), StepAction::Continue);
    assert_eq!(inspector.step_end(), StepAction::Continue);
    assert_eq!(inspector.into_parts(), (NoOpInspector, 2, u64::MAX, None));
}

#[test]
fn suspended_segment_keeps_its_counters() {
    let mut inspector =
        ControlledInspector::new(NoOpInspector, ExecutionControl { max_steps: Some(2) }, 5);
    inspector.step_end();
    assert_eq!(inspector.step_end(), StepAction::Suspend);
    let (_, steps_executed, total_steps_executed, step_limit) = inspector.into_parts();
    let suspended = suspended_execution("evm", steps_executed, total_steps_executed, step_limit);
    assert_eq!(suspended.step_limit, 2);
    assert_eq!(suspended.steps_executed, 2);
    assert_eq!(suspended.total_steps_executed, 7);
    assert_eq!(suspended.snapshot.evm, "evm");
    assert_eq!(suspended.snapshot.total_steps_executed, 7);

    let result: ControlledExecutionResult<u8, InMemoryExecutionSnapshot<&str>> =
        ControlledExecutionResult::Suspended(suspended);
    match result {
        ControlledExecutionResult::Suspended(s) => assert_eq!(s.step_limit, 2),
        ControlledExecutionResult::Completed(_) => panic!("expected a suspended result"),
    }
}

#[test]
fn default_control_is_unbounded() {
    assert_eq!(ExecutionControl::default().max_steps, None);
}

#[test]
fn envelope_holds_version_and_payload() {
    let envelope = SnapshotEnvelope::new(3, vec![1u8, 2, 3]);
    assert_eq!(envelope.version, 3);
    assert_eq!(envelope.payload, vec![1u8, 2, 3]);
    assert_eq!(envelope, SnapshotEnvelope { version: 3, payload: vec![1u8, 2, 3] });
}
