//! The index as several tasks share it: behind a reader-writer lock, with a
//! read-only handle for everyone but the one task that writes.

use crate::index::{names_view, Index};
use parking_lot::{RwLock, RwLockReadGuard};
use std::sync::Arc;
use vstd::prelude::*;

verus! {

/// The raw lock of `parking_lot`, opaque here.
#[verifier::external_type_specification]
#[verifier::external_body]
pub struct ExRawRwLock(parking_lot::RawRwLock);

/// The reader-writer lock of `lock_api`, which `parking_lot::RwLock` is made
/// of. What it guards is seen only through a guard.
#[verifier::external_type_specification]
#[verifier::external_body]
#[verifier::reject_recursive_types(R)]
#[verifier::reject_recursive_types(T)]
pub struct ExRwLock<R, T: ?Sized>(parking_lot::lock_api::RwLock<R, T>);

/// Shared read access to an index, held until the value is dropped: the read
/// guard of `lock_api`. The guard is kept out of the verifier's sight because
/// its type is bounded by a trait of `lock_api`.
#[verifier::external_body]
struct ReadAccess<'a> {
    guard: RwLockReadGuard<'a, Index>,
}

/// An index that is shared between the task that writes it and its readers.
pub type SharedIndex = Arc<RwLock<Index>>;

/// The entries of the index that `lock` was made around. This is what the
/// lock held when it was new, not what it holds now: that changes with every
/// writer, and has no name.
pub uninterp spec fn initial_entries(lock: RwLock<Index>) -> Map<Seq<char>, bool>;

/// A new, unlocked lock around `index`, made by `RwLock::new`.
///
/// Trusted. `RwLock::new` moves the value it is given into the lock, so the
/// lock starts with the entries of `index`. Nothing is claimed of what it
/// holds later.
#[verifier::external_body]
fn lock_around(index: Index) -> (lock: RwLock<Index>)
    ensures
        initial_entries(lock) == index@,
{
    RwLock::new(index)
}

/// Another pointer to the same shared index, made by `Arc::clone`.
///
/// Trusted. `Arc::clone` makes a new pointer to the same allocation, so the
/// result is the very lock that `index` points to.
#[verifier::external_body]
fn share(index: &SharedIndex) -> (shared: SharedIndex)
    ensures
        shared == *index,
{
    Arc::clone(index)
}

/// Shared read access to the index, taken by `RwLock::read`.
///
/// Trusted. The call blocks while a writer holds the lock, and returns once
/// the writer lets go. Nothing is claimed of the guard. A task that asks for
/// read access while it holds a guard of the same lock may wait for ever: no
/// function of this crate holds a guard when it calls this one.
#[verifier::external_body]
fn read_access<'a>(lock: &'a RwLock<Index>) -> (access: ReadAccess<'a>) {
    ReadAccess { guard: lock.read() }
}

/// The index that a read guard gives access to, by the guard's `Deref`.
///
/// Trusted. Which entries the index holds depends on what the writer has done
/// so far, so nothing is claimed of it; it is an index like any other.
#[verifier::external_body]
fn guarded<'a, 'b>(access: &'a ReadAccess<'b>) -> (index: &'a Index) {
    &*access.guard
}

/// What a reader reports of one workload.
#[derive(Debug, PartialEq, Eq)]
pub struct ReadinessReport {
    pub name: String,
    pub is_ready: bool,
}

/// The names of the reports, in order.
pub open spec fn reported_names(reports: Seq<ReadinessReport>) -> Seq<Seq<char>> {
    reports.map_values(|report: ReadinessReport| report.name@)
}

/// The report on the workload `name`, for which a lookup gave `readiness`. A
/// workload that has no entry, or has lost it since it was listed, is
/// reported as not ready.
pub fn observed(name: String, readiness: Option<bool>) -> (report: ReadinessReport)
    ensures
        report.name@ == name@,
        report.is_ready == (readiness == Some(true)),
{
    let is_ready = match readiness {
        Some(ready) => ready,
        None => false,
    };
    ReadinessReport { name, is_ready }
}

/// A read-only handle on a shared index. It can be cloned and handed to any
/// number of tasks, and holds no state of its own.
pub struct Reader {
    index: SharedIndex,
}

impl Clone for Reader {
    /// Another handle on the same index.
    fn clone(&self) -> (reader: Reader)
        ensures
            reader.source() == self.source(),
    {
        Reader { index: share(&self.index) }
    }
}

impl Reader {
    /// The shared index that the handle reads.
    pub closed spec fn source(&self) -> SharedIndex {
        self.index
    }

    fn new(index: SharedIndex) -> (reader: Reader)
        ensures
            reader.source() == index,
    {
        Reader { index }
    }

    /// Whether the workload `name` is entered as ready at the time of the
    /// call. Whatever the writer does meanwhile, the answer is `Some(true)`
    /// or `None`: an entry never holds anything but `true`.
    pub fn is_ready(&self, name: &str) -> (r: Option<bool>)
        ensures
            r is None || r == Some(true),
    {
        let access = read_access(&self.index);
        let index = guarded(&access);
        index.is_ready(name)
    }

    /// The names that are entered as ready at the time of the call, each
    /// once, in no order that callers may rely on.
    pub fn list(&self) -> (names: Vec<String>)
        ensures
            names_view(names@).no_duplicates(),
    {
        let access = read_access(&self.index);
        let index = guarded(&access);
        index.list()
    }

    /// One report for each of `names`, in their order, with the readiness
    /// that a lookup at the time of the call gives for the name. A name
    /// without an entry is reported as not ready.
    pub fn report_on(&self, names: &Vec<String>) -> (reports: Vec<ReadinessReport>)
        ensures
            reported_names(reports@) == names_view(names@),
    {
        let mut reports: Vec<ReadinessReport> = Vec::new();
        let mut i: usize = 0;
        while i < names.len()
            invariant
                i <= names.len(),
                reports.len() == i,
                forall|k: int| 0 <= k < i ==> (#[trigger] reports[k]).name@ == names[k]@,
            decreases names.len() - i,
        {
            let readiness = self.is_ready(names[i].as_str());
            reports.push(observed(names[i].clone(), readiness));
            i += 1;
        }
        assert(reported_names(reports@) =~= names_view(names@));
        reports
    }

    /// One report for each name that is listed at the time of the call, with
    /// the readiness that a lookup of its own gives for the name. The index
    /// may change between the listing and a lookup: a name that has lost its
    /// entry by then is reported as not ready.
    pub fn report(&self) -> (reports: Vec<ReadinessReport>)
        ensures
            reported_names(reports@).no_duplicates(),
    {
        let names = self.list();
        self.report_on(&names)
    }
}

impl Index {
    /// A new index that can be shared between tasks: a lock that starts out
    /// around an index without entries.
    pub fn shared() -> (shared: SharedIndex)
        ensures
            initial_entries(*shared) == Map::<Seq<char>, bool>::empty(),
    {
        Arc::new(lock_around(Index::new()))
    }

    /// A read-only handle on `index`: it reads that shared index, and no other.
    pub fn read_handle(index: &SharedIndex) -> (reader: Reader)
        ensures
            reader.source() == *index,
    {
        Reader::new(share(index))
    }
}

} // verus!
