//! The session registry: at most one session per identifier.

use vstd::prelude::*;
use vstd::string::StringExecFns;
use crate::model::RegistryState;
use crate::session::{Session, SessionState, TermSize};

verus! {

/// Whether some record in `entries` carries the identifier `id`.
spec fn holds<R>(entries: Seq<Session<R>>, id: Seq<char>) -> bool {
    exists|i: int| 0 <= i < entries.len() && (#[trigger] entries[i]).name() == id
}

/// The position of a record named `id`, where there is one.
spec fn slot<R>(entries: Seq<Session<R>>, id: Seq<char>) -> int {
    choose|i: int| 0 <= i < entries.len() && (#[trigger] entries[i]).name() == id
}

/// No two records share an identifier.
spec fn distinct<R>(entries: Seq<Session<R>>) -> bool {
    forall|i: int, j: int|
        0 <= i < j < entries.len() ==> (#[trigger] entries[i]).name() != (#[trigger] entries[j]).name()
}

/// The records as a map from identifier to session.
spec fn table<R>(entries: Seq<Session<R>>) -> Map<Seq<char>, SessionState<R>> {
    Map::new(|id: Seq<char>| holds(entries, id), |id: Seq<char>| entries[slot(entries, id)]@)
}

/// With distinct identifiers, a record's identifier leads back to its position.
proof fn lemma_slot<R>(entries: Seq<Session<R>>, i: int)
    requires
        distinct(entries),
        0 <= i < entries.len(),
    ensures
        holds(entries, entries[i].name()),
        slot(entries, entries[i].name()) == i,
        table(entries).contains_key(entries[i].name()),
        table(entries)[entries[i].name()] == entries[i]@,
{
    let id = entries[i].name();
    assert(holds(entries, id));
    let k = slot(entries, id);
    assert(0 <= k < entries.len() && entries[k].name() == id);
    if k < i {
        assert(entries[k].name() != entries[i].name());
    } else if i < k {
        assert(entries[i].name() != entries[k].name());
    }
}

/// An identifier that the table knows is the identifier of some record.
proof fn lemma_held<R>(entries: Seq<Session<R>>, id: Seq<char>) -> (i: int)
    requires
        holds(entries, id),
    ensures
        0 <= i < entries.len(),
        entries[i].name() == id,
        i == slot(entries, id),
{
    slot(entries, id)
}

/// Appending a record under a fresh identifier inserts it into the table.
proof fn lemma_push<R>(entries: Seq<Session<R>>, entry: Session<R>)
    requires
        distinct(entries),
        !holds(entries, entry.name()),
    ensures
        distinct(entries.push(entry)),
        table(entries.push(entry)) == table(entries).insert(entry.name(), entry@),
{
    let after = entries.push(entry);
    assert forall|i: int, j: int| 0 <= i < j < after.len() implies (#[trigger] after[i]).name() != (
    #[trigger] after[j]).name() by {
        if j < entries.len() {
            assert(entries[i].name() != entries[j].name());
        } else {
            if entries[i].name() == entry.name() {
                assert(holds(entries, entry.name()));
            }
        }
    }
    assert(distinct(after));
    assert forall|id: Seq<char>| #[trigger]
        table(after).contains_key(id) == table(entries).insert(entry.name(), entry@).contains_key(
            id,
        ) by {
        if holds(after, id) {
            let k = lemma_held(after, id);
            if k < entries.len() {
                assert(entries[k].name() == id);
                assert(holds(entries, id));
            }
        }
        if holds(entries, id) {
            let k = lemma_held(entries, id);
            assert(after[k].name() == id);
            assert(holds(after, id));
        }
        if id == entry.name() {
            assert(after[entries.len() as int].name() == id);
            assert(holds(after, id));
        }
    }
    assert forall|id: Seq<char>| #[trigger] table(after).contains_key(id) implies table(after)[id]
        == table(entries).insert(entry.name(), entry@)[id] by {
        let k = lemma_held(after, id);
        lemma_slot(after, k);
        if k < entries.len() {
            assert(entries[k].name() == id);
            lemma_slot(entries, k);
        }
    }
    assert(table(after) =~= table(entries).insert(entry.name(), entry@));
}

/// Taking a record out removes its identifier from the table.
proof fn lemma_remove<R>(entries: Seq<Session<R>>, i: int)
    requires
        distinct(entries),
        0 <= i < entries.len(),
    ensures
        distinct(entries.remove(i)),
        table(entries.remove(i)) == table(entries).remove(entries[i].name()),
{
    let after = entries.remove(i);
    let gone = entries[i].name();
    assert forall|a: int, b: int| 0 <= a < b < after.len() implies (#[trigger] after[a]).name() != (
    #[trigger] after[b]).name() by {
        let a0 = if a < i { a } else { a + 1 };
        let b0 = if b < i { b } else { b + 1 };
        assert(after[a] == entries[a0] && after[b] == entries[b0]);
        assert(entries[a0].name() != entries[b0].name());
    }
    assert(distinct(after));
    assert forall|id: Seq<char>| #[trigger]
        table(after).contains_key(id) == table(entries).remove(gone).contains_key(id) by {
        if holds(after, id) {
            let k = lemma_held(after, id);
            let k0 = if k < i { k } else { k + 1 };
            assert(after[k] == entries[k0]);
            assert(entries[k0].name() == id);
            assert(holds(entries, id));
            if id == gone {
                lemma_slot(entries, i);
                lemma_slot(entries, k0);
            }
        }
        if holds(entries, id) && id != gone {
            let k = lemma_held(entries, id);
            let k1 = if k < i { k } else { k - 1 };
            assert(after[k1] == entries[k]);
            assert(after[k1].name() == id);
            assert(holds(after, id));
        }
    }
    assert forall|id: Seq<char>| #[trigger] table(after).contains_key(id) implies table(after)[id]
        == table(entries).remove(gone)[id] by {
        let k = lemma_held(after, id);
        lemma_slot(after, k);
        let k0 = if k < i { k } else { k + 1 };
        assert(after[k] == entries[k0]);
        lemma_slot(entries, k0);
    }
    assert(table(after) =~= table(entries).remove(gone));
}

/// Replacing a record by one of the same identifier overwrites its entry.
proof fn lemma_update<R>(entries: Seq<Session<R>>, i: int, entry: Session<R>)
    requires
        distinct(entries),
        0 <= i < entries.len(),
        entry.name() == entries[i].name(),
    ensures
        distinct(entries.update(i, entry)),
        table(entries.update(i, entry)) == table(entries).insert(entry.name(), entry@),
{
    let after = entries.update(i, entry);
    assert forall|a: int, b: int| 0 <= a < b < after.len() implies (#[trigger] after[a]).name() != (
    #[trigger] after[b]).name() by {
        assert(after[a].name() == entries[a].name());
        assert(after[b].name() == entries[b].name());
        assert(entries[a].name() != entries[b].name());
    }
    assert(distinct(after));
    assert forall|id: Seq<char>| #[trigger]
        table(after).contains_key(id) == table(entries).insert(entry.name(), entry@).contains_key(
            id,
        ) by {
        if holds(after, id) {
            let k = lemma_held(after, id);
            assert(entries[k].name() == id);
            assert(holds(entries, id));
        }
        if holds(entries, id) {
            let k = lemma_held(entries, id);
            assert(after[k].name() == id);
            assert(holds(after, id));
        }
        if id == entry.name() {
            assert(after[i].name() == id);
            assert(holds(after, id));
        }
    }
    assert forall|id: Seq<char>| #[trigger] table(after).contains_key(id) implies table(after)[id]
        == table(entries).insert(entry.name(), entry@)[id] by {
        let k = lemma_held(after, id);
        lemma_slot(after, k);
        assert(entries[k].name() == id);
        lemma_slot(entries, k);
    }
    assert(table(after) =~= table(entries).insert(entry.name(), entry@));
}

/// The identifiers of the records, in storage order.
spec fn names<R>(entries: Seq<Session<R>>) -> Seq<Seq<char>> {
    Seq::new(entries.len(), |i: int| entries[i].name())
}

/// The table has exactly one entry per record.
proof fn lemma_table_size<R>(entries: Seq<Session<R>>)
    requires
        distinct(entries),
    ensures
        names(entries).no_duplicates(),
        table(entries).dom() == names(entries).to_set(),
        table(entries).dom().finite(),
        table(entries).dom().len() == entries.len(),
{
    let ids = names(entries);
    assert forall|i: int, j: int| 0 <= i < ids.len() && 0 <= j < ids.len() && i != j implies ids[i]
        != ids[j] by {
        if i < j {
            assert(entries[i].name() != entries[j].name());
        } else {
            assert(entries[j].name() != entries[i].name());
        }
    }
    assert forall|id: Seq<char>| table(entries).dom().contains(id) == ids.to_set().contains(
        id,
    ) by {
        if holds(entries, id) {
            let k = lemma_held(entries, id);
            assert(ids[k] == id);
            assert(ids.contains(id));
        }
        if ids.contains(id) {
            let k = choose|k: int| 0 <= k < ids.len() && ids[k] == id;
            assert(entries[k].name() == id);
            assert(holds(entries, id));
        }
    }
    assert(table(entries).dom() =~= ids.to_set());
    ids.unique_seq_to_set();
    vstd::seq_lib::seq_to_set_is_finite(ids);
}

/// A registry of terminal sessions, keyed by caller-chosen identifier.
///
/// `R` is the embedding program's bundle of operating-system resources for
/// one session. The registry owns it from registration until removal and
/// never looks inside.
pub struct Registry<R> {
    sessions: Vec<Session<R>>,
    next_generation: u64,
}

impl<R> View for Registry<R> {
    type V = RegistryState<R>;

    closed spec fn view(&self) -> RegistryState<R> {
        RegistryState { sessions: table(self.sessions@), next_generation: self.next_generation }
    }
}

impl<R> Registry<R> {
    /// The invariant of every registry value: no identifier is stored twice,
    /// and every stored generation has been handed out.
    #[verifier::type_invariant]
    pub closed spec fn wf(&self) -> bool {
        &&& distinct(self.sessions@)
        &&& forall|i: int|
            0 <= i < self.sessions@.len() ==> (#[trigger] self.sessions@[i])@.generation
                < self.next_generation
    }

    /// The identifiers of the stored sessions, one entry per stored session.
    pub closed spec fn stored_ids(&self) -> Seq<Seq<char>> {
        names(self.sessions@)
    }

    /// The registry never holds two sessions under one identifier: among the
    /// stored sessions every identifier occurs once, and the model has one
    /// entry for each stored session and no other.
    pub proof fn lemma_one_session_per_id(self)
        requires
            self.wf(),
        ensures
            self.stored_ids().no_duplicates(),
            self.stored_ids().to_set() == self@.sessions.dom(),
            self.stored_ids().len() == self@.sessions.dom().len(),
            self@.valid(),
    {
        lemma_table_size(self.sessions@);
        assert forall|id: Seq<char>| #[trigger] self@.sessions.contains_key(id) implies self@.sessions[id].generation
            < self@.next_generation by {
            let k = lemma_held(self.sessions@, id);
            lemma_slot(self.sessions@, k);
        }
    }

    /// An empty registry.
    pub fn new() -> (registry: Self)
        ensures
            registry@ == RegistryState::<R>::empty(),
            registry.wf(),
    {
        let registry = Registry { sessions: Vec::new(), next_generation: 0 };
        proof {
            assert(registry@.sessions =~= Map::<Seq<char>, SessionState<R>>::empty());
        }
        registry
    }

    /// The position of the record named `id`.
    fn find(&self, id: &str) -> (found: Option<usize>)
        ensures
            match found {
                Some(i) => i < self.sessions@.len() && self.sessions@[i as int].name() == id@,
                None => !holds(self.sessions@, id@),
            },
    {
        let key = String::from_str(id);
        let mut i: usize = 0;
        while i < self.sessions.len()
            invariant
                i <= self.sessions@.len(),
                key@ == id@,
                forall|k: int| 0 <= k < i ==> (#[trigger] self.sessions@[k]).name() != id@,
            decreases self.sessions@.len() - i,
        {
            if *self.sessions[i].id() == key {
                return Some(i);
            }
            i += 1;
        }
        None
    }

    /// How many sessions are registered.
    pub fn len(&self) -> (count: usize)
        ensures
            self@.sessions.dom().finite(),
            count == self@.sessions.dom().len(),
    {
        proof {
            use_type_invariant(self);
            lemma_table_size(self.sessions@);
        }
        self.sessions.len()
    }

    /// Whether no session is registered.
    pub fn is_empty(&self) -> (empty: bool)
        ensures
            empty == (self@.sessions == Map::<Seq<char>, SessionState<R>>::empty()),
    {
        proof {
            use_type_invariant(self);
            lemma_table_size(self.sessions@);
            if self.sessions@.len() == 0 {
                assert(self@.sessions.dom() =~= Set::<Seq<char>>::empty());
                assert(self@.sessions =~= Map::<Seq<char>, SessionState<R>>::empty());
            }
        }
        self.sessions.len() == 0
    }

    /// Whether `id` names a registered session.
    pub fn contains(&self, id: &str) -> (present: bool)
        ensures
            present == self@.contains(id@),
    {
        proof {
            use_type_invariant(self);
        }
        match self.find(id) {
            Some(i) => {
                proof {
                    lemma_slot(self.sessions@, i as int);
                }
                true
            },
            None => false,
        }
    }

    /// Whether every generation has been handed out, so that no further
    /// session can be registered.
    pub fn exhausted(&self) -> (full: bool)
        ensures
            full == self@.exhausted(),
    {
        self.next_generation == u64::MAX
    }

    /// The record of the session named `id`.
    pub fn session(&self, id: &str) -> (found: Option<&Session<R>>)
        ensures
            match found {
                Some(session) => self@.contains(id@) && session.name() == id@ && session@
                    == self@.sessions[id@],
                None => !self@.contains(id@),
            },
    {
        proof {
            use_type_invariant(self);
        }
        match self.find(id) {
            Some(i) => {
                proof {
                    lemma_slot(self.sessions@, i as int);
                }
                Some(&self.sessions[i])
            },
            None => None,
        }
    }

    /// The resources of the session named `id`.
    pub fn get(&self, id: &str) -> (found: Option<&R>)
        ensures
            match found {
                Some(resource) => self@.contains(id@) && *resource == self@.sessions[id@].resource,
                None => !self@.contains(id@),
            },
    {
        match self.session(id) {
            Some(session) => Some(session.resource()),
            None => None,
        }
    }

    /// The size last recorded for the session named `id`.
    pub fn size_of(&self, id: &str) -> (found: Option<TermSize>)
        ensures
            found == (if self@.contains(id@) {
                Some(self@.sessions[id@].size)
            } else {
                None
            }),
    {
        match self.session(id) {
            Some(session) => Some(session.size()),
            None => None,
        }
    }

    /// The generation of the session named `id`.
    pub fn generation_of(&self, id: &str) -> (found: Option<u64>)
        ensures
            found == (if self@.contains(id@) {
                Some(self@.sessions[id@].generation)
            } else {
                None
            }),
    {
        match self.session(id) {
            Some(session) => Some(session.generation()),
            None => None,
        }
    }

    /// Whether the session that `id` named when it received `generation` is
    /// still registered.
    pub fn is_live(&self, id: &str, generation: u64) -> (live: bool)
        ensures
            live == self@.is_live(id@, generation),
    {
        match self.session(id) {
            Some(session) => session.generation() == generation,
            None => false,
        }
    }

    /// Registers `resource` under `id` unless the identifier is taken or the
    /// generations are used up. On success the session starts at the initial
    /// size and the call returns its generation; otherwise the registry is
    /// unchanged and the resource comes back to the caller.
    pub fn insert_if_absent(&mut self, id: &str, resource: R) -> (outcome: Result<u64, R>)
        ensures
            final(self).wf(),
            old(self)@.can_register(id@) ==> outcome == Ok::<u64, R>(old(self)@.next_generation)
                && final(self)@ == old(self)@.registered(id@, resource),
            !old(self)@.can_register(id@) ==> outcome == Err::<u64, R>(resource) && final(self)@
                == old(self)@,
    {
        proof {
            use_type_invariant(&*self);
        }
        if self.next_generation == u64::MAX {
            return Err(resource);
        }
        match self.find(id) {
            Some(i) => {
                proof {
                    lemma_slot(self.sessions@, i as int);
                }
                Err(resource)
            },
            None => {
                let generation = self.next_generation;
                let entry = Session::new(String::from_str(id), generation, TermSize::initial(), resource);
                let mut sessions = Vec::new();
                std::mem::swap(&mut sessions, &mut self.sessions);
                proof {
                    lemma_push(sessions@, entry);
                }
                sessions.push(entry);
                self.next_generation = generation + 1;
                self.sessions = sessions;
                Ok(generation)
            },
        }
    }

    /// Records `size` for the session named `id`. Returns whether there is
    /// such a session; without one the registry is unchanged.
    pub fn set_size(&mut self, id: &str, size: TermSize) -> (present: bool)
        ensures
            final(self).wf(),
            present == old(self)@.contains(id@),
            final(self)@ == old(self)@.resized(id@, size),
    {
        proof {
            use_type_invariant(&*self);
        }
        match self.find(id) {
            Some(i) => {
                let mut sessions = Vec::new();
                std::mem::swap(&mut sessions, &mut self.sessions);
                let ghost before = sessions@;
                proof {
                    lemma_slot(before, i as int);
                }
                sessions[i].set_size(size);
                proof {
                    assert(sessions@ == before.update(i as int, sessions@[i as int]));
                    lemma_update(before, i as int, sessions@[i as int]);
                }
                self.sessions = sessions;
                true
            },
            None => false,
        }
    }

    /// Takes the session named `id` out of the registry and hands its record
    /// to the caller. Without such a session nothing changes.
    pub fn remove(&mut self, id: &str) -> (removed: Option<Session<R>>)
        ensures
            final(self).wf(),
            final(self)@ == old(self)@.destroyed(id@),
            match removed {
                Some(session) => old(self)@.contains(id@) && session.name() == id@ && session@
                    == old(self)@.sessions[id@],
                None => !old(self)@.contains(id@),
            },
    {
        proof {
            use_type_invariant(&*self);
        }
        match self.find(id) {
            Some(i) => {
                let mut sessions = Vec::new();
                std::mem::swap(&mut sessions, &mut self.sessions);
                proof {
                    lemma_slot(sessions@, i as int);
                    lemma_remove(sessions@, i as int);
                }
                let session = sessions.remove(i);
                self.sessions = sessions;
                Some(session)
            },
            None => {
                proof {
                    assert(self@.sessions =~= self@.sessions.remove(id@));
                }
                None
            },
        }
    }
}

} // verus!
