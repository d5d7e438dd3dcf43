//! The mathematical model of the registry and of the commands that change it.
//!
//! Every contract of the executable code is stated over these definitions,
//! and so are the laws that relate several commands.

use vstd::prelude::*;
use crate::session::{SessionState, TermSize};

verus! {

/// The registry as a mathematical object: a finite map from identifiers to
/// sessions, and the generation the next session will receive.
pub struct RegistryState<R> {
    /// The registered sessions, by identifier.
    pub sessions: Map<Seq<char>, SessionState<R>>,
    /// The generation handed to the next session. Generations below it have
    /// been handed out; it never decreases.
    pub next_generation: u64,
}

impl<R> RegistryState<R> {
    /// The registry before any command.
    pub open spec fn empty() -> Self {
        RegistryState { sessions: Map::empty(), next_generation: 0 }
    }

    /// What holds of every registry the commands can reach: finitely many
    /// sessions, each of a generation that has been handed out.
    pub open spec fn valid(self) -> bool {
        &&& self.sessions.dom().finite()
        &&& forall|id: Seq<char>| #[trigger]
            self.sessions.contains_key(id) ==> self.sessions[id].generation < self.next_generation
    }

    /// Whether `id` names a registered session.
    pub open spec fn contains(self, id: Seq<char>) -> bool {
        self.sessions.contains_key(id)
    }

    /// Whether every generation has been handed out.
    pub open spec fn exhausted(self) -> bool {
        self.next_generation == u64::MAX
    }

    /// Whether a session may be registered under `id`.
    pub open spec fn can_register(self, id: Seq<char>) -> bool {
        !self.contains(id) && !self.exhausted()
    }

    /// Whether the session that `id` named when it received `generation` is
    /// still registered.
    pub open spec fn is_live(self, id: Seq<char>, generation: u64) -> bool {
        self.contains(id) && self.sessions[id].generation == generation
    }

    /// Whether `generation` was handed out and its session is gone.
    pub open spec fn retired(self, id: Seq<char>, generation: u64) -> bool {
        generation < self.next_generation && !self.is_live(id, generation)
    }

    /// The registry after a session with `resource` has been registered under
    /// `id`: it starts at the initial size and takes the next generation.
    pub open spec fn registered(self, id: Seq<char>, resource: R) -> Self {
        RegistryState {
            sessions: self.sessions.insert(
                id,
                SessionState {
                    generation: self.next_generation,
                    size: TermSize::initial_size(),
                    resource,
                },
            ),
            next_generation: (self.next_generation + 1) as u64,
        }
    }

    /// The registry after the size of `id` has been recorded as `size`.
    /// Nothing changes if `id` is not registered.
    pub open spec fn resized(self, id: Seq<char>, size: TermSize) -> Self {
        if self.contains(id) {
            RegistryState {
                sessions: self.sessions.insert(id, SessionState { size, ..self.sessions[id] }),
                ..self
            }
        } else {
            self
        }
    }

    /// The registry after `id` has been removed, registered or not.
    pub open spec fn destroyed(self, id: Seq<char>) -> Self {
        RegistryState { sessions: self.sessions.remove(id), ..self }
    }

    /// The registry after the session `id` of `generation` has ended by
    /// itself: removed if it is still that session, untouched otherwise.
    pub open spec fn ended(self, id: Seq<char>, generation: u64) -> Self {
        if self.is_live(id, generation) {
            self.destroyed(id)
        } else {
            self
        }
    }
}

} // verus!
