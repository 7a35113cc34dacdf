//! The reconciler: what has to be done for one workload, and what follows
//! from the outcome of the write.
//!
//! Reconciling is split where the write to the store happens. [`reconcile`]
//! looks at a workload and either settles at once or asks for one status
//! patch; the caller performs the patch and hands its outcome to
//! [`conclude`]; on an error the driver asks [`error_policy`] when to retry.

use crate::condition::{
    clone_conditions, conditions_view, distinct_types, mk_condition, Condition, ConditionStatus,
    ConditionView, ExternalWorkloadStatus, ExternalWorkloadStatusView, Timestamp,
    WORKLOAD_READY_COND,
};
use crate::workload::{ExternalWorkload, ExternalWorkloadView};
use vstd::prelude::*;
use vstd::string::*;

verus! {

/// The error of the cluster client. Its inside is of no concern here: a failed
/// write is carried through to the driver as it came.
#[verifier::external_type_specification]
#[verifier::external_body]
pub struct ExKubeError(kube::Error);

/// The API version of the external workload resource.
pub const API_VERSION: &'static str = "workload.linkerd.io/v1beta1";

/// The kind of the external workload resource.
pub const KIND: &'static str = "ExternalWorkload";

/// The name under which the controller writes to the store.
pub const FIELD_MANAGER: &'static str = "kubecon-controller";

/// The path of the namespace in a workload, as reported when it is missing.
pub const NAMESPACE_FIELD: &'static str = ".metadata.namespace";

/// Seconds to wait before a failed reconciliation is tried again.
pub const RETRY_BACKOFF_SECS: u64 = 60;

/// What the driver is to do with a workload after a reconciliation.
#[derive(Clone, Copy, Debug, PartialEq, Eq, Structural)]
pub enum Action {
    /// Do not reconcile the workload again.
    NoRequeue,
    /// Reconcile the workload again after this many seconds.
    RequeueAfter(u64),
    /// Reconcile the workload again when it has changed.
    RequeueOnChange,
}

/// Why a reconciliation failed.
#[derive(Debug)]
pub enum ControllerError {
    /// The status patch did not succeed.
    WriteFailed(kube::Error),
    /// The workload lacks the named field.
    MissingField(&'static str),
}

/// The merge patch that sets the status of a workload: only the fields that
/// are present in it change.
#[derive(Debug, PartialEq, Eq)]
pub struct StatusPatch {
    pub api_version: String,
    pub kind: String,
    pub name: String,
    pub status: ExternalWorkloadStatus,
}

/// The mathematical value of a [`StatusPatch`].
pub struct StatusPatchView {
    pub api_version: Seq<char>,
    pub kind: Seq<char>,
    pub name: Seq<char>,
    pub status: ExternalWorkloadStatusView,
}

impl View for StatusPatch {
    type V = StatusPatchView;

    open spec fn view(&self) -> StatusPatchView {
        StatusPatchView {
            api_version: self.api_version@,
            kind: self.kind@,
            name: self.name@,
            status: self.status@,
        }
    }
}

/// One write to the store: a status patch and the object it is meant for.
#[derive(Debug, PartialEq, Eq)]
pub struct PatchRequest {
    pub namespace: String,
    pub name: String,
    pub field_manager: String,
    pub patch: StatusPatch,
}

/// The mathematical value of a [`PatchRequest`].
pub struct PatchRequestView {
    pub namespace: Seq<char>,
    pub name: Seq<char>,
    pub field_manager: Seq<char>,
    pub patch: StatusPatchView,
}

impl View for PatchRequest {
    type V = PatchRequestView;

    open spec fn view(&self) -> PatchRequestView {
        PatchRequestView {
            namespace: self.namespace@,
            name: self.name@,
            field_manager: self.field_manager@,
            patch: self.patch@,
        }
    }
}

/// How a reconciliation goes on after the workload has been looked at.
#[derive(Debug, PartialEq, Eq)]
pub enum Step {
    /// Nothing is written; the action is final.
    Done(Action),
    /// This patch is to be written, and its outcome handed to [`conclude`].
    Patch(PatchRequest),
}

impl ExternalWorkloadView {
    /// The status that records `fresh` after the conditions that are there.
    pub open spec fn status_with(self, fresh: ConditionView) -> ExternalWorkloadStatusView {
        ExternalWorkloadStatusView { conditions: self.conditions().push(fresh) }
    }

    /// The write that records `fresh` on the workload in `namespace`.
    pub open spec fn patch_request(
        self,
        namespace: Seq<char>,
        fresh: ConditionView,
    ) -> PatchRequestView {
        PatchRequestView {
            namespace,
            name: self.metadata.name_any(),
            field_manager: FIELD_MANAGER@,
            patch: StatusPatchView {
                api_version: API_VERSION@,
                kind: KIND@,
                name: self.metadata.name_any(),
                status: self.status_with(fresh),
            },
        }
    }

    /// The workload after the store has merged the status of `patch` into it.
    pub open spec fn patched(self, patch: StatusPatchView) -> ExternalWorkloadView {
        ExternalWorkloadView { status: Some(patch.status), ..self }
    }
}

/// Whether the reconciliation of `workload` with the condition `fresh` at hand
/// ends as `outcome`.
///
/// A settled workload is left alone, and the driver waits for its next change.
/// One that is not settled needs its namespace to be addressed; with it, the
/// one patch that appends `fresh` is asked for.
pub open spec fn reconciles_to(
    workload: ExternalWorkloadView,
    fresh: ConditionView,
    outcome: Result<Step, ControllerError>,
) -> bool {
    if workload.is_settled() {
        outcome matches Ok(Step::Done(action)) && action == Action::RequeueOnChange
    } else {
        match workload.metadata.namespace {
            None => outcome matches Err(ControllerError::MissingField(field)) && field@
                == NAMESPACE_FIELD@,
            Some(namespace) => outcome matches Ok(Step::Patch(request)) && request@
                == workload.patch_request(namespace, fresh),
        }
    }
}

/// The step that reconciles `workload`, with `fresh` as the condition to
/// record where none is recorded yet.
pub fn plan(workload: &ExternalWorkload, fresh: Condition) -> (r: Result<Step, ControllerError>)
    ensures
        reconciles_to(workload@, fresh@, r),
        workload@.wf() && fresh@.has_ready_type() ==> (r matches Ok(Step::Patch(request))
            ==> request@.patch.status.wf()),
{
    proof {
        if workload@.wf() && fresh@.has_ready_type() && !workload@.is_settled() {
            lemma_patch_keeps_types_distinct(workload@, fresh@);
        }
    }
    if workload.is_settled() {
        return Ok(Step::Done(Action::RequeueOnChange));
    }
    let mut conditions = match &workload.status {
        Some(status) => clone_conditions(&status.conditions),
        None => Vec::new(),
    };
    assert(conditions_view(conditions@) =~= workload@.conditions());
    let ghost before = conditions@;
    conditions.push(fresh);
    assert(conditions_view(conditions@) =~= conditions_view(before).push(fresh@));
    let status = ExternalWorkloadStatus { conditions };
    let namespace = match &workload.metadata.namespace {
        Some(namespace) => namespace.clone(),
        None => {
            return Err(ControllerError::MissingField(NAMESPACE_FIELD));
        },
    };
    let request = PatchRequest {
        namespace,
        name: workload.name_any(),
        field_manager: String::from_str(FIELD_MANAGER),
        patch: StatusPatch {
            api_version: String::from_str(API_VERSION),
            kind: String::from_str(KIND),
            name: workload.name_any(),
            status,
        },
    };
    Ok(Step::Patch(request))
}

/// Reconciles one workload: a workload whose readiness is recorded is left
/// alone, any other gets a `Ready` condition stamped with the current time.
///
/// The clock decides which times are recorded; the outcome is the one that
/// [`reconciles_to`] describes for some readiness condition.
pub fn reconcile(workload: &ExternalWorkload) -> (r: Result<Step, ControllerError>)
    ensures
        exists|probe: Timestamp, transition: Timestamp|
            reconciles_to(workload@, #[trigger] ConditionView::ready(probe, transition), r),
        workload@.wf() ==> (r matches Ok(Step::Patch(request)) ==> request@.patch.status.wf()),
{
    if workload.is_settled() {
        let ghost epoch = Timestamp { secs: 0, nanos: 0 };
        assert(reconciles_to(
            workload@,
            ConditionView::ready(epoch, epoch),
            Ok(Step::Done(Action::RequeueOnChange)),
        ));
        return Ok(Step::Done(Action::RequeueOnChange));
    }
    let fresh = mk_condition();
    plan(workload, fresh)
}

/// The end of a reconciliation whose patch was sent to the store: after a
/// successful write the driver waits for the next change, a failed one is
/// reported with the client's error.
pub fn conclude(written: Result<(), kube::Error>) -> (r: Result<Action, ControllerError>)
    ensures
        match written {
            Ok(_) => r == Ok::<Action, ControllerError>(Action::RequeueOnChange),
            Err(error) => r == Err::<Action, ControllerError>(ControllerError::WriteFailed(error)),
        },
{
    match written {
        Ok(_) => Ok(Action::RequeueOnChange),
        Err(error) => Err(ControllerError::WriteFailed(error)),
    }
}

/// What the driver does about a failed reconciliation: whatever the error, it
/// tries again after the fixed backoff.
pub fn error_policy(error: &ControllerError) -> (r: Action)
    ensures
        r == Action::RequeueAfter(RETRY_BACKOFF_SECS),
{
    Action::RequeueAfter(RETRY_BACKOFF_SECS)
}

/// A workload that carries a condition of the readiness type is left alone,
/// whatever the status of that condition: nothing is written, and the driver
/// waits for the next change.
pub proof fn lemma_settled_workload_is_left_alone(
    workload: ExternalWorkloadView,
    at: int,
    fresh: ConditionView,
    outcome: Result<Step, ControllerError>,
)
    requires
        0 <= at < workload.conditions().len(),
        workload.conditions()[at].has_ready_type(),
        reconciles_to(workload, fresh, outcome),
    ensures
        outcome matches Ok(Step::Done(action)) && action == Action::RequeueOnChange,
{
}

/// A workload without conditions, in a namespace, gets a patch whose status
/// holds exactly one condition: of type `Ready`, with status `True`, and with
/// both times set.
pub proof fn lemma_first_reconcile_records_one_condition(
    workload: ExternalWorkloadView,
    probe: Timestamp,
    transition: Timestamp,
    outcome: Result<Step, ControllerError>,
)
    requires
        workload.conditions().len() == 0,
        workload.metadata.namespace is Some,
        reconciles_to(workload, ConditionView::ready(probe, transition), outcome),
    ensures
        outcome matches Ok(Step::Patch(request)) && {
            let recorded = request@.patch.status.conditions;
            &&& recorded.len() == 1
            &&& recorded[0].typ == WORKLOAD_READY_COND@
            &&& recorded[0].status == ConditionStatus::True
            &&& recorded[0].last_probe_time == Some(probe)
            &&& recorded[0].last_transition_time == Some(transition)
        },
{
}

/// The patch keeps every condition that the workload has, in order, and adds
/// the fresh one at the end.
pub proof fn lemma_patch_preserves_conditions(workload: ExternalWorkloadView, fresh: ConditionView)
    ensures
        workload.status_with(fresh).conditions.len() == workload.conditions().len() + 1,
        workload.status_with(fresh).conditions.last() == fresh,
        forall|i: int|
            0 <= i < workload.conditions().len() ==> #[trigger] workload.status_with(
                fresh,
            ).conditions[i] == workload.conditions()[i],
{
}

/// The patch keeps the conditions a set keyed by type: where no type occurs
/// twice before, and readiness is not recorded yet, no type occurs twice
/// after a readiness condition has been added.
pub proof fn lemma_patch_keeps_types_distinct(workload: ExternalWorkloadView, fresh: ConditionView)
    requires
        distinct_types(workload.conditions()),
        !workload.is_settled(),
        fresh.has_ready_type(),
    ensures
        workload.status_with(fresh).wf(),
{
    let before = workload.conditions();
    let after = workload.status_with(fresh).conditions;
    assert forall|i: int, j: int| 0 <= i < j < after.len() implies (#[trigger] after[i]).typ != (
    #[trigger] after[j]).typ by {
        if j < before.len() {
            assert(after[i] == before[i]);
            assert(after[j] == before[j]);
        } else {
            assert(after[i] == before[i]);
            assert(!before[i].has_ready_type());
        }
    }
}

/// Once the store has taken the patch, the workload is settled: reconciling
/// it again writes nothing.
pub proof fn lemma_patched_workload_is_settled(
    workload: ExternalWorkloadView,
    namespace: Seq<char>,
    fresh: ConditionView,
    again: ConditionView,
    outcome: Result<Step, ControllerError>,
)
    requires
        fresh.has_ready_type(),
        reconciles_to(
            workload.patched(workload.patch_request(namespace, fresh).patch),
            again,
            outcome,
        ),
    ensures
        outcome matches Ok(Step::Done(action)) && action == Action::RequeueOnChange,
{
    let patched = workload.patched(workload.patch_request(namespace, fresh).patch);
    assert(patched.conditions()[workload.conditions().len() as int] == fresh);
}

} // verus!
