use kubecon_controller::{
    conclude, error_policy, is_ready, mk_external_workload, plan, reconcile, Action, Condition,
    ConditionStatus, ControllerError, ExternalWorkload, ExternalWorkloadStatus, PatchRequest,
    StatusPatch, Step, Timestamp,
};

fn write_error() -> kube::Error {
    kube::Error::Api(kube::core::ErrorResponse {
        status: "Failure".to_string(),
        message: "the server is currently unable to handle the request".to_string(),
        reason: "ServiceUnavailable".to_string(),
        code: 503,
    })
}

fn condition(typ: &str, status: ConditionStatus) -> Condition {
    Condition {
        typ: typ.to_string(),
        status,
        last_transition_time: None,
        last_probe_time: None,
        reason: None,
        message: None,
    }
}

fn with_conditions(conditions: Vec<Condition>) -> ExternalWorkload {
    let mut w = mk_external_workload("w", "ns", vec![80]);
    w.status = Some(ExternalWorkloadStatus { conditions });
    w
}

fn patch_of(step: Result<Step, ControllerError>) -> PatchRequest {
    match step {
        Ok(Step::Patch(request)) => request,
        other => panic!("expected a patch, got {:?}", other),
    }
}

// What the store holds after it has merged the patch into the workload.
fn patched(workload: &ExternalWorkload, patch: &StatusPatch) -> ExternalWorkload {
    let mut w = workload.clone();
    w.status = Some(patch.status.clone());
    w
}

#[test]
fn a_ready_true_condition_settles_the_workload() {
    let w = with_conditions(vec![condition("Ready", ConditionStatus::True)]);
    assert_eq!(reconcile(&w).expect("no error"), Step::Done(Action::RequeueOnChange));
}

#[test]
fn a_ready_false_condition_settles_the_workload() {
    let w = with_conditions(vec![condition("Ready", ConditionStatus::False)]);
    assert_eq!(reconcile(&w).expect("no error"), Step::Done(Action::RequeueOnChange));
}

#[test]
fn a_ready_unknown_condition_settles_the_workload() {
    let w = with_conditions(vec![condition("Ready", ConditionStatus::Unknown)]);
    assert_eq!(reconcile(&w).expect("no error"), Step::Done(Action::RequeueOnChange));
}

#[test]
fn a_ready_condition_settles_wherever_it_stands() {
    let w = with_conditions(vec![
        condition("Initialized", ConditionStatus::True),
        condition("Ready", ConditionStatus::False),
        condition("Scheduled", ConditionStatus::True),
    ]);
    assert_eq!(reconcile(&w).expect("no error"), Step::Done(Action::RequeueOnChange));
}

#[test]
fn a_settled_workload_needs_no_namespace() {
    let mut w = with_conditions(vec![condition("Ready", ConditionStatus::Unknown)]);
    w.metadata.namespace = None;
    assert_eq!(reconcile(&w).expect("no error"), Step::Done(Action::RequeueOnChange));
}

#[test]
fn no_conditions_give_a_patch_with_one_condition() {
    let w = with_conditions(vec![]);
    let request = patch_of(reconcile(&w));
    let conditions = &request.patch.status.conditions;
    assert_eq!(conditions.len(), 1);
    assert_eq!(conditions[0].typ, "Ready");
    assert_eq!(conditions[0].status, ConditionStatus::True);
    assert!(conditions[0].last_probe_time.is_some());
    assert!(conditions[0].last_transition_time.is_some());
    assert_eq!(conditions[0].reason, Some("WorkloadCreated".to_string()));
    assert_eq!(conditions[0].message, Some("Workload created".to_string()));
    assert!(is_ready(&conditions[0]));
}

#[test]
fn no_status_gives_the_same_patch_as_no_conditions() {
    let t = Timestamp { secs: 1_700_000_000, nanos: 1 };
    let without_status = mk_external_workload("w", "ns", vec![80]);
    let without_conditions = with_conditions(vec![]);
    assert_eq!(
        patch_of(plan(&without_status, Condition::ready_at(t, t))),
        patch_of(plan(&without_conditions, Condition::ready_at(t, t))),
    );
}

#[test]
fn the_patch_is_addressed_to_the_workload() {
    let probe = Timestamp { secs: 1_700_000_000, nanos: 1 };
    let transition = Timestamp { secs: 1_700_000_000, nanos: 2 };
    let w = mk_external_workload("w", "ns", vec![80]);
    let request = patch_of(plan(&w, Condition::ready_at(probe, transition)));
    assert_eq!(
        request,
        PatchRequest {
            namespace: "ns".to_string(),
            name: "w".to_string(),
            field_manager: "kubecon-controller".to_string(),
            patch: StatusPatch {
                api_version: "workload.linkerd.io/v1beta1".to_string(),
                kind: "ExternalWorkload".to_string(),
                name: "w".to_string(),
                status: ExternalWorkloadStatus {
                    conditions: vec![Condition {
                        typ: "Ready".to_string(),
                        status: ConditionStatus::True,
                        last_transition_time: Some(transition),
                        last_probe_time: Some(probe),
                        reason: Some("WorkloadCreated".to_string()),
                        message: Some("Workload created".to_string()),
                    }],
                },
            },
        }
    );
}

#[test]
fn the_patch_keeps_the_conditions_that_are_there() {
    let t = Timestamp { secs: 1_700_000_000, nanos: 1 };
    let before = vec![
        condition("Initialized", ConditionStatus::True),
        condition("Scheduled", ConditionStatus::Unknown),
    ];
    let w = with_conditions(before.clone());
    let request = patch_of(plan(&w, Condition::ready_at(t, t)));
    let after = &request.patch.status.conditions;
    assert_eq!(after.len(), 3);
    assert_eq!(after[0], before[0]);
    assert_eq!(after[1], before[1]);
    assert_eq!(after[2], Condition::ready_at(t, t));
}

#[test]
fn a_workload_without_namespace_cannot_be_patched() {
    let mut w = mk_external_workload("w", "ns", vec![80]);
    w.metadata.namespace = None;
    match reconcile(&w) {
        Err(ControllerError::MissingField(field)) => assert_eq!(field, ".metadata.namespace"),
        other => panic!("expected a missing field, got {:?}", other),
    }
}

#[test]
fn a_workload_without_name_is_patched_under_its_prefix() {
    let t = Timestamp { secs: 1, nanos: 0 };
    let mut w = mk_external_workload("w", "ns", vec![80]);
    w.metadata.name = None;
    w.metadata.generate_name = Some("gen-".to_string());
    let request = patch_of(plan(&w, Condition::ready_at(t, t)));
    assert_eq!(request.name, "gen-");
    assert_eq!(request.patch.name, "gen-");
    w.metadata.generate_name = None;
    let request = patch_of(plan(&w, Condition::ready_at(t, t)));
    assert_eq!(request.name, "");
}

#[test]
fn a_successful_write_waits_for_the_next_change() {
    assert_eq!(conclude(Ok(())).expect("no error"), Action::RequeueOnChange);
}

#[test]
fn a_failed_write_is_reported_with_its_cause() {
    match conclude(Err(write_error())) {
        Err(ControllerError::WriteFailed(kube::Error::Api(response))) => {
            assert_eq!(response.code, 503);
            assert_eq!(response.reason, "ServiceUnavailable");
        },
        other => panic!("expected a failed write, got {:?}", other),
    }
}

#[test]
fn every_error_is_retried_after_a_minute() {
    assert_eq!(
        error_policy(&ControllerError::WriteFailed(write_error())),
        Action::RequeueAfter(60)
    );
    assert_eq!(
        error_policy(&ControllerError::MissingField(".metadata.namespace")),
        Action::RequeueAfter(60)
    );
}

#[test]
fn reconcile_patches_once_then_never_again() {
    let mut w = mk_external_workload("w", "ns", vec![80]);
    w.status = Some(ExternalWorkloadStatus { conditions: vec![] });
    let mut writes: Vec<PatchRequest> = Vec::new();

    let request = patch_of(reconcile(&w));
    let stored = patched(&w, &request.patch);
    writes.push(request);
    assert_eq!(conclude(Ok(())).expect("no error"), Action::RequeueOnChange);
    assert_eq!(writes.len(), 1);
    assert_eq!(writes[0].namespace, "ns");
    assert_eq!(writes[0].name, "w");
    assert_eq!(writes[0].patch.status.conditions.len(), 1);
    assert!(is_ready(&writes[0].patch.status.conditions[0]));

    match reconcile(&stored).expect("no error") {
        Step::Done(action) => assert_eq!(action, Action::RequeueOnChange),
        Step::Patch(request) => writes.push(request),
    }
    assert_eq!(writes.len(), 1);
}

#[test]
fn a_failed_patch_is_retried_and_written_once() {
    let w = with_conditions(vec![]);
    let mut recorded: Vec<PatchRequest> = Vec::new();
    let mut store_is_down = true;
    let mut requeued_after: Vec<u64> = Vec::new();
    let mut attempts = 0;

    let last = loop {
        attempts += 1;
        let outcome = match reconcile(&w) {
            Ok(Step::Done(action)) => Ok(action),
            Ok(Step::Patch(request)) => {
                let written = if store_is_down {
                    store_is_down = false;
                    Err(write_error())
                } else {
                    recorded.push(request);
                    Ok(())
                };
                conclude(written)
            },
            Err(error) => Err(error),
        };
        match outcome {
            Ok(action) => break action,
            Err(error) => {
                assert!(matches!(error, ControllerError::WriteFailed(_)));
                match error_policy(&error) {
                    Action::RequeueAfter(secs) => requeued_after.push(secs),
                    other => panic!("expected a retry, got {:?}", other),
                }
            },
        }
        assert!(attempts < 5);
    };

    assert_eq!(attempts, 2);
    assert_eq!(requeued_after, vec![60]);
    assert_eq!(last, Action::RequeueOnChange);
    assert_eq!(recorded.len(), 1);
    assert_eq!(recorded[0].patch.status.conditions.len(), 1);
}
