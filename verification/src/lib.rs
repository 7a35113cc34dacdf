//! A readiness controller for external workloads.
//!
//! The crate holds the two engines of the controller as verified functions
//! over plain data: the readiness index, which folds a stream of apply and
//! delete events into a mapping that many readers may query, and the
//! reconciler, which decides for one workload whether a `Ready` condition has
//! to be written and what follows from the outcome of the write.

pub mod condition;
pub mod controller;
pub mod index;
pub mod shared;
pub mod workload;

pub use condition::{
    is_ready, mk_condition, now, Condition, ConditionStatus, ExternalWorkloadStatus, Timestamp,
    WORKLOAD_READY_COND,
};
pub use controller::{
    conclude, error_policy, plan, reconcile, Action, ControllerError, PatchRequest, StatusPatch,
    Step,
};
pub use index::Index;
pub use shared::{observed, Reader, ReadinessReport, SharedIndex};
pub use workload::{
    mk_external_workload, ExternalWorkload, ExternalWorkloadSpec, MeshTls, ObjectMeta, PortSpec,
    WorkloadIP,
};
