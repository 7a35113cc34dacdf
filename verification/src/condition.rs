//! Conditions: the entries of a workload's status, and the readiness signal
//! among them.
//!
//! Every type has a mathematical view, in which strings are sequences of
//! characters and vectors are sequences of views. Contracts in this crate are
//! stated over those views.

use vstd::prelude::*;
use vstd::string::*;

verus! {

/// The condition type that signals workload readiness.
pub const WORKLOAD_READY_COND: &'static str = "Ready";

/// A point in time: whole seconds since the Unix epoch, and the nanoseconds
/// past that second.
#[derive(Clone, Copy, Debug, PartialEq, Eq, Structural)]
pub struct Timestamp {
    pub secs: i64,
    pub nanos: u32,
}

impl Timestamp {
    /// The nanoseconds stay within the second.
    pub open spec fn wf(self) -> bool {
        self.nanos < 1_000_000_000
    }
}

/// The status of a condition.
#[derive(Clone, Copy, Debug, PartialEq, Eq, Structural)]
pub enum ConditionStatus {
    True,
    False,
    Unknown,
}

/// The service state of an external workload, one entry per condition type.
#[derive(Debug, PartialEq, Eq)]
pub struct Condition {
    /// Type of the condition.
    pub typ: String,
    /// Status of the condition.
    pub status: ConditionStatus,
    /// Last time the condition went from one status to another.
    pub last_transition_time: Option<Timestamp>,
    /// Last time the workload was probed for the condition.
    pub last_probe_time: Option<Timestamp>,
    /// One word, in camel case, that gives the reason for the last transition.
    pub reason: Option<String>,
    /// Human readable details about the last transition.
    pub message: Option<String>,
}

/// The mathematical value of a [`Condition`].
pub struct ConditionView {
    pub typ: Seq<char>,
    pub status: ConditionStatus,
    pub last_transition_time: Option<Timestamp>,
    pub last_probe_time: Option<Timestamp>,
    pub reason: Option<Seq<char>>,
    pub message: Option<Seq<char>>,
}

impl View for Condition {
    type V = ConditionView;

    open spec fn view(&self) -> ConditionView {
        ConditionView {
            typ: self.typ@,
            status: self.status,
            last_transition_time: self.last_transition_time,
            last_probe_time: self.last_probe_time,
            reason: self.reason.deep_view(),
            message: self.message.deep_view(),
        }
    }
}

impl ConditionView {
    /// The condition has the readiness type, whatever its status.
    pub open spec fn has_ready_type(self) -> bool {
        self.typ == WORKLOAD_READY_COND@
    }

    /// The condition says that the workload is ready.
    pub open spec fn is_ready(self) -> bool {
        self.has_ready_type() && self.status == ConditionStatus::True
    }

    /// The condition that records readiness: type `Ready`, status `True`, the
    /// fixed reason and message of a created workload, and the two times.
    pub open spec fn ready(probe: Timestamp, transition: Timestamp) -> ConditionView {
        ConditionView {
            typ: WORKLOAD_READY_COND@,
            status: ConditionStatus::True,
            last_transition_time: Some(transition),
            last_probe_time: Some(probe),
            reason: Some("WorkloadCreated"@),
            message: Some("Workload created"@),
        }
    }
}

// A copy of an optional string.
pub(crate) fn clone_opt_string(s: &Option<String>) -> (r: Option<String>)
    ensures
        r.deep_view() == s.deep_view(),
{
    match s {
        Some(text) => Some(text.clone()),
        None => None,
    }
}

impl Clone for Condition {
    fn clone(&self) -> (r: Self)
        ensures
            r@ == self@,
    {
        Condition {
            typ: self.typ.clone(),
            status: self.status,
            last_transition_time: self.last_transition_time,
            last_probe_time: self.last_probe_time,
            reason: clone_opt_string(&self.reason),
            message: clone_opt_string(&self.message),
        }
    }
}

/// Whether the text is the readiness type.
pub fn is_ready_type(typ: &String) -> (r: bool)
    ensures
        r == (typ@ == WORKLOAD_READY_COND@),
{
    let ready = String::from_str(WORKLOAD_READY_COND);
    *typ == ready
}

/// Whether the condition says that the workload is ready: its type is
/// `Ready` and its status is `True`.
pub fn is_ready(cond: &Condition) -> (r: bool)
    ensures
        r == cond@.is_ready(),
{
    is_ready_type(&cond.typ) && cond.status == ConditionStatus::True
}

impl Condition {
    /// The readiness condition of a workload that was probed at `probe` and
    /// became ready at `transition`.
    pub fn ready_at(probe: Timestamp, transition: Timestamp) -> (c: Condition)
        ensures
            c@ == ConditionView::ready(probe, transition),
            c@.is_ready(),
    {
        Condition {
            typ: String::from_str(WORKLOAD_READY_COND),
            status: ConditionStatus::True,
            message: Some(String::from_str("Workload created")),
            reason: Some(String::from_str("WorkloadCreated")),
            last_probe_time: Some(probe),
            last_transition_time: Some(transition),
        }
    }
}

/// The current time, read from the system clock by `chrono::Utc::now`.
///
/// Trusted: the clock is outside the verifier's reach. `Utc::now` takes the
/// time that has passed since the Unix epoch as whole seconds and the
/// nanoseconds of the second that has begun, so the contract claims only that
/// the nanoseconds stay below one second. Which time comes back is left open:
/// two calls may differ. `Utc::now` panics on a machine whose clock stands
/// before the epoch.
#[verifier::external_body]
pub fn now() -> (t: Timestamp)
    ensures
        t.wf(),
{
    let t = k8s_openapi::chrono::Utc::now();
    Timestamp { secs: t.timestamp(), nanos: t.timestamp_subsec_nanos() }
}

/// A fresh readiness condition, stamped with the current time for both the
/// probe and the transition. The two readings of the clock may differ.
pub fn mk_condition() -> (c: Condition)
    ensures
        c@.last_probe_time is Some,
        c@.last_transition_time is Some,
        c@ == ConditionView::ready(c@.last_probe_time->0, c@.last_transition_time->0),
        c@.last_probe_time->0.wf(),
        c@.last_transition_time->0.wf(),
        c@.is_ready(),
{
    let probe = now();
    let transition = now();
    Condition::ready_at(probe, transition)
}

/// The observed state of an external workload.
#[derive(Debug, PartialEq, Eq)]
pub struct ExternalWorkloadStatus {
    pub conditions: Vec<Condition>,
}

/// The views of a sequence of conditions, in order.
pub open spec fn conditions_view(conditions: Seq<Condition>) -> Seq<ConditionView> {
    conditions.map_values(|c: Condition| c@)
}

/// Some condition of the sequence has the readiness type.
pub open spec fn has_ready_type(conditions: Seq<ConditionView>) -> bool {
    exists|i: int| 0 <= i < conditions.len() && (#[trigger] conditions[i]).has_ready_type()
}

/// Some condition of the sequence says that the workload is ready.
pub open spec fn has_ready(conditions: Seq<ConditionView>) -> bool {
    exists|i: int| 0 <= i < conditions.len() && (#[trigger] conditions[i]).is_ready()
}

/// No two conditions of the sequence have the same type.
pub open spec fn distinct_types(conditions: Seq<ConditionView>) -> bool {
    forall|i: int, j: int|
        0 <= i < j < conditions.len() ==> (#[trigger] conditions[i]).typ != (
        #[trigger] conditions[j]).typ
}

/// The mathematical value of an [`ExternalWorkloadStatus`].
pub struct ExternalWorkloadStatusView {
    pub conditions: Seq<ConditionView>,
}

impl ExternalWorkloadStatusView {
    /// The conditions form a set keyed by type: no type occurs twice.
    pub open spec fn wf(self) -> bool {
        distinct_types(self.conditions)
    }
}

impl View for ExternalWorkloadStatus {
    type V = ExternalWorkloadStatusView;

    open spec fn view(&self) -> ExternalWorkloadStatusView {
        ExternalWorkloadStatusView { conditions: conditions_view(self.conditions@) }
    }
}

impl Default for ExternalWorkloadStatus {
    fn default() -> (r: Self)
        ensures
            r@.conditions == Seq::<ConditionView>::empty(),
    {
        ExternalWorkloadStatus { conditions: Vec::new() }
    }
}

/// Whether some condition of the list has the readiness type.
pub fn any_of_ready_type(conditions: &Vec<Condition>) -> (r: bool)
    ensures
        r == has_ready_type(conditions_view(conditions@)),
{
    let mut i: usize = 0;
    while i < conditions.len()
        invariant
            i <= conditions.len(),
            forall|k: int|
                0 <= k < i ==> !(#[trigger] conditions_view(conditions@)[k]).has_ready_type(),
        decreases conditions.len() - i,
    {
        if is_ready_type(&conditions[i].typ) {
            assert(conditions_view(conditions@)[i as int].has_ready_type());
            return true;
        }
        i += 1;
    }
    false
}

/// Whether some condition of the list says that the workload is ready.
pub fn any_ready(conditions: &Vec<Condition>) -> (r: bool)
    ensures
        r == has_ready(conditions_view(conditions@)),
{
    let mut i: usize = 0;
    while i < conditions.len()
        invariant
            i <= conditions.len(),
            forall|k: int| 0 <= k < i ==> !(#[trigger] conditions_view(conditions@)[k]).is_ready(),
        decreases conditions.len() - i,
    {
        if is_ready(&conditions[i]) {
            assert(conditions_view(conditions@)[i as int].is_ready());
            return true;
        }
        i += 1;
    }
    false
}

/// A copy of a list of conditions.
pub fn clone_conditions(conditions: &Vec<Condition>) -> (r: Vec<Condition>)
    ensures
        conditions_view(r@) == conditions_view(conditions@),
{
    let mut copy: Vec<Condition> = Vec::new();
    let mut i: usize = 0;
    while i < conditions.len()
        invariant
            i <= conditions.len(),
            copy.len() == i,
            forall|k: int| 0 <= k < i ==> (#[trigger] copy[k])@ == conditions[k]@,
        decreases conditions.len() - i,
    {
        copy.push(conditions[i].clone());
        i += 1;
    }
    assert(conditions_view(copy@) =~= conditions_view(conditions@));
    copy
}

impl Clone for ExternalWorkloadStatus {
    fn clone(&self) -> (r: Self)
        ensures
            r@ == self@,
    {
        ExternalWorkloadStatus { conditions: clone_conditions(&self.conditions) }
    }
}

} // verus!
