//! The readiness index: which workloads were ready when they were last seen.
//!
//! One task folds the stream of apply and delete events into the index. The
//! index holds an entry for a name exactly if the workload of that name was
//! ready when it was last applied and has not been deleted since; an entry is
//! never anything but `true`.

use crate::workload::{ExternalWorkload, ExternalWorkloadView};
use vstd::prelude::*;
use vstd::string::*;

verus! {

/// The readiness that `index` holds for `name`: `Some(true)` for a workload
/// that was ready when last applied, `None` for any other. Absence does not
/// say that a workload is known to be unready: it may never have been seen.
pub open spec fn readiness(index: Map<Seq<char>, bool>, name: Seq<char>) -> Option<bool> {
    if index.contains_key(name) {
        Some(index[name])
    } else {
        None
    }
}

/// The index after `record` has been applied to it: a ready workload is
/// entered under its name, one that is not ready loses its entry.
pub open spec fn applied(index: Map<Seq<char>, bool>, record: ExternalWorkloadView) -> Map<
    Seq<char>,
    bool,
> {
    if record.is_ready() {
        index.insert(record.metadata.name_any(), true)
    } else {
        index.remove(record.metadata.name_any())
    }
}

/// The index after the workload `name` has been deleted from it.
pub open spec fn deleted(index: Map<Seq<char>, bool>, name: Seq<char>) -> Map<Seq<char>, bool> {
    index.remove(name)
}

/// Every entry of the index says `true`.
pub open spec fn entries_are_true(index: Map<Seq<char>, bool>) -> bool {
    forall|name: Seq<char>| index.contains_key(name) ==> #[trigger] index[name]
}

/// The names at the positions of `names`.
pub open spec fn names_view(names: Seq<String>) -> Seq<Seq<char>> {
    names.map_values(|name: String| name@)
}

/// Holds all indexing state. Owned and updated by the one task that processes
/// watch events; readers look the results up through a shared handle.
#[derive(Debug)]
pub struct Index {
    // The names of the workloads that were ready when last applied, each once.
    ready: Vec<String>,
}

impl View for Index {
    type V = Map<Seq<char>, bool>;

    closed spec fn view(&self) -> Map<Seq<char>, bool> {
        Map::new(|name: Seq<char>| names_view(self.ready@).contains(name), |name: Seq<char>| true)
    }
}

impl Index {
    #[verifier::type_invariant]
    spec fn each_name_once(self) -> bool {
        names_view(self.ready@).no_duplicates()
    }

    /// An index holds finitely many entries, and each of them says `true`.
    pub proof fn lemma_entries(&self)
        ensures
            self@.dom().finite(),
            entries_are_true(self@),
    {
        let names = names_view(self.ready@);
        assert(self@.dom() =~= names.to_set());
        vstd::seq_lib::seq_to_set_is_finite(names);
    }

    /// An index without entries.
    pub fn new() -> (index: Index)
        ensures
            index@ == Map::<Seq<char>, bool>::empty(),
    {
        let index = Index { ready: Vec::new() };
        assert(index@ =~= Map::<Seq<char>, bool>::empty());
        index
    }

    // The position of `name` among the ready names, if it is there.
    fn position(&self, name: &String) -> (at: Option<usize>)
        ensures
            match at {
                Some(i) => i < self.ready.len() && names_view(self.ready@)[i as int] == name@,
                None => !names_view(self.ready@).contains(name@),
            },
    {
        let mut i: usize = 0;
        while i < self.ready.len()
            invariant
                i <= self.ready.len(),
                forall|k: int| 0 <= k < i ==> (#[trigger] names_view(self.ready@)[k]) != name@,
            decreases self.ready.len() - i,
        {
            if self.ready[i] == *name {
                return Some(i);
            }
            i += 1;
        }
        None
    }

    // Enters `name`, unless it is entered already.
    fn enter(&mut self, name: String)
        ensures
            final(self)@ == old(self)@.insert(name@, true),
    {
        proof {
            use_type_invariant(&*self);
        }
        if self.position(&name).is_none() {
            let mut names: Vec<String> = Vec::new();
            std::mem::swap(&mut self.ready, &mut names);
            let ghost before = names_view(names@);
            names.push(name);
            proof {
                assert(names_view(names@) =~= before.push(name@));
                lemma_push_adds_one_name(before, name@);
            }
            self.ready = names;
        }
        assert(self@ =~= old(self)@.insert(name@, true));
    }

    // Removes `name`, if it is entered.
    fn leave(&mut self, name: &String)
        ensures
            final(self)@ == old(self)@.remove(name@),
    {
        proof {
            use_type_invariant(&*self);
        }
        if let Some(i) = self.position(name) {
            let mut names: Vec<String> = Vec::new();
            std::mem::swap(&mut self.ready, &mut names);
            let ghost before = names_view(names@);
            names.remove(i);
            proof {
                assert(names_view(names@) =~= before.remove(i as int));
                lemma_remove_drops_one_name(before, i as int);
            }
            self.ready = names;
        }
        assert(self@ =~= old(self)@.remove(name@));
    }

    /// Takes note of `resource`: a workload with a condition of type `Ready`
    /// and status `True` is entered as ready under its name, any other loses
    /// its entry. A workload without status or conditions counts as not ready.
    pub fn apply(&mut self, resource: ExternalWorkload)
        ensures
            final(self)@ == applied(old(self)@, resource@),
    {
        let name = resource.name_any();
        if resource.is_ready() {
            self.enter(name);
        } else {
            self.leave(&name);
        }
    }

    /// Removes the entry of the workload `name`, in whatever namespace;
    /// nothing changes where it has none.
    pub fn delete(&mut self, namespace: String, name: String)
        ensures
            final(self)@ == deleted(old(self)@, name@),
    {
        self.leave(&name);
    }

    /// Whether the workload `name` was ready when it was last applied.
    pub fn is_ready(&self, name: &str) -> (r: Option<bool>)
        ensures
            r == readiness(self@, name@),
            r is None || r == Some(true),
    {
        let key = String::from_str(name);
        match self.position(&key) {
            Some(_) => Some(true),
            None => None,
        }
    }

    /// The names of the workloads that are entered as ready, each once, in no
    /// order that callers may rely on.
    pub fn list(&self) -> (names: Vec<String>)
        ensures
            names_view(names@).no_duplicates(),
            names_view(names@).to_set() == self@.dom(),
    {
        proof {
            use_type_invariant(self);
        }
        let mut names: Vec<String> = Vec::new();
        let mut i: usize = 0;
        while i < self.ready.len()
            invariant
                i <= self.ready.len(),
                names.len() == i,
                forall|k: int| 0 <= k < i ==> (#[trigger] names[k])@ == self.ready[k]@,
            decreases self.ready.len() - i,
        {
            names.push(self.ready[i].clone());
            i += 1;
        }
        assert(names_view(names@) =~= names_view(self.ready@));
        assert(names_view(names@).to_set() =~= self@.dom());
        names
    }
}

// A name that is put behind a list without repetitions, and is not in it,
// leaves a list without repetitions that holds one name more.
proof fn lemma_push_adds_one_name(names: Seq<Seq<char>>, name: Seq<char>)
    requires
        names.no_duplicates(),
        !names.contains(name),
    ensures
        names.push(name).no_duplicates(),
        forall|k: Seq<char>| names.push(name).contains(k) <==> (names.contains(k) || k == name),
{
    let more = names.push(name);
    assert forall|k: Seq<char>| more.contains(k) <==> (names.contains(k) || k == name) by {
        if names.contains(k) {
            let j = choose|j: int| 0 <= j < names.len() && names[j] == k;
            assert(more[j] == k);
        }
        if k == name {
            assert(more[names.len() as int] == k);
        }
    }
}

// Taking the name at `at` out of a list without repetitions leaves a list
// without repetitions that holds every other name, and that one no more.
proof fn lemma_remove_drops_one_name(names: Seq<Seq<char>>, at: int)
    requires
        names.no_duplicates(),
        0 <= at < names.len(),
    ensures
        names.remove(at).no_duplicates(),
        forall|k: Seq<char>| names.remove(at).contains(k) <==> (names.contains(k) && k != names[at]),
{
    let rest = names.remove(at);
    assert forall|k: Seq<char>| rest.contains(k) <==> (names.contains(k) && k != names[at]) by {
        if rest.contains(k) {
            let j = choose|j: int| 0 <= j < rest.len() && rest[j] == k;
            if j < at {
                assert(names[j] == k);
            } else {
                assert(names[j + 1] == k);
            }
        }
        if names.contains(k) && k != names[at] {
            let j = choose|j: int| 0 <= j < names.len() && names[j] == k;
            if j < at {
                assert(rest[j] == k);
            } else {
                assert(rest[j - 1] == k);
            }
        }
    }
}

/// Applying a record twice leaves the index as applying it once does.
pub proof fn lemma_apply_is_idempotent(index: Map<Seq<char>, bool>, record: ExternalWorkloadView)
    ensures
        applied(applied(index, record), record) == applied(index, record),
{
    assert(applied(applied(index, record), record) =~= applied(index, record));
}

/// After a record has been applied, the index says `Some(true)` for its name
/// if the record has a condition of type `Ready` and status `True`, and `None`
/// if it has not.
pub proof fn lemma_apply_decides_readiness(
    index: Map<Seq<char>, bool>,
    record: ExternalWorkloadView,
)
    ensures
        readiness(applied(index, record), record.metadata.name_any()) == if record.is_ready() {
            Some(true)
        } else {
            None
        },
{
}

/// Applying a record changes nothing for a workload of another name.
pub proof fn lemma_apply_leaves_others(
    index: Map<Seq<char>, bool>,
    record: ExternalWorkloadView,
    other: Seq<char>,
)
    requires
        other != record.metadata.name_any(),
    ensures
        readiness(applied(index, record), other) == readiness(index, other),
{
}

/// After a delete the index says `None` for the name, whatever it said before.
pub proof fn lemma_delete_removes(index: Map<Seq<char>, bool>, name: Seq<char>)
    ensures
        readiness(deleted(index, name), name) is None,
{
}

/// Deleting a workload changes nothing for a workload of another name.
pub proof fn lemma_delete_leaves_others(
    index: Map<Seq<char>, bool>,
    name: Seq<char>,
    other: Seq<char>,
)
    requires
        other != name,
    ensures
        readiness(deleted(index, name), other) == readiness(index, other),
{
}

/// Deleting a workload twice leaves the index as deleting it once does.
pub proof fn lemma_delete_is_idempotent(index: Map<Seq<char>, bool>, name: Seq<char>)
    ensures
        deleted(deleted(index, name), name) == deleted(index, name),
{
    assert(deleted(deleted(index, name), name) =~= deleted(index, name));
}

/// Neither applying a record nor deleting a workload enters anything but
/// `true`.
pub proof fn lemma_entries_stay_true(
    index: Map<Seq<char>, bool>,
    record: ExternalWorkloadView,
    name: Seq<char>,
)
    requires
        entries_are_true(index),
    ensures
        entries_are_true(applied(index, record)),
        entries_are_true(deleted(index, name)),
{
}

/// One event of the watch stream, as the index takes it.
pub enum Event {
    /// A workload was created or changed; this is its new state.
    Applied(ExternalWorkloadView),
    /// The workload of this name was removed.
    Deleted(Seq<char>),
}

impl Event {
    /// The name of the workload that the event is about.
    pub open spec fn name(self) -> Seq<char> {
        match self {
            Event::Applied(record) => record.metadata.name_any(),
            Event::Deleted(name) => name,
        }
    }

    /// The event shows its workload as ready.
    pub open spec fn shows_ready(self) -> bool {
        self matches Event::Applied(record) && record.is_ready()
    }
}

/// The index after it has taken `event`.
pub open spec fn after(index: Map<Seq<char>, bool>, event: Event) -> Map<Seq<char>, bool> {
    match event {
        Event::Applied(record) => applied(index, record),
        Event::Deleted(name) => deleted(index, name),
    }
}

/// The index that has taken `events`, first to last, starting empty.
pub open spec fn folded(events: Seq<Event>) -> Map<Seq<char>, bool>
    decreases events.len(),
{
    if events.len() == 0 {
        Map::empty()
    } else {
        after(folded(events.drop_last()), events.last())
    }
}

/// The last of `events` that is about the workload `name`, if there is one.
pub open spec fn last_about(events: Seq<Event>, name: Seq<char>) -> Option<Event>
    decreases events.len(),
{
    if events.len() == 0 {
        None
    } else if events.last().name() == name {
        Some(events.last())
    } else {
        last_about(events.drop_last(), name)
    }
}

/// The index says `Some(true)` for a name exactly if the last event about
/// that name applied a ready workload; after any other history of the name,
/// and for a name that no event was about, it says `None`.
pub proof fn lemma_last_event_decides(events: Seq<Event>, name: Seq<char>)
    ensures
        readiness(folded(events), name) == match last_about(events, name) {
            Some(event) => if event.shows_ready() {
                Some(true)
            } else {
                None
            },
            None => None,
        },
    decreases events.len(),
{
    if events.len() > 0 {
        lemma_last_event_decides(events.drop_last(), name);
    }
}

/// Whatever events the index has taken, it holds finitely many entries, and
/// none of them says anything but `true`.
pub proof fn lemma_folded_entries(events: Seq<Event>)
    ensures
        folded(events).dom().finite(),
        entries_are_true(folded(events)),
    decreases events.len(),
{
    if events.len() > 0 {
        lemma_folded_entries(events.drop_last());
    }
}

} // verus!
