//! Laws of the session commands, proved over the model.
//!
//! The commands' own contracts say what one call does. The laws below relate
//! several calls, or hold of every registry the commands can reach.

use vstd::prelude::*;
use crate::controller::{lookup_failure, resize_failure};
use crate::error::PtyErrorView;
use crate::forwarder::{forwarder_action, forwarder_after, ActionView, ForwarderState};
use crate::model::RegistryState;
use crate::session::TermSize;

verus! {

/// One change to the registry, as the commands make them.
pub enum Change<R> {
    /// A successful `create`: registers `resource` under `id`.
    Register { id: Seq<char>, resource: R },
    /// A successful `resize`: records `size` for `id`.
    Resize { id: Seq<char>, size: TermSize },
    /// A `destroy` of `id`.
    Destroy { id: Seq<char> },
    /// The end of the session `id` of `generation` by itself.
    End { id: Seq<char>, generation: u64 },
}

/// The registry after one change. A registration that the registry would
/// refuse changes nothing.
pub open spec fn apply<R>(state: RegistryState<R>, change: Change<R>) -> RegistryState<R> {
    match change {
        Change::Register { id, resource } => if state.can_register(id) {
            state.registered(id, resource)
        } else {
            state
        },
        Change::Resize { id, size } => state.resized(id, size),
        Change::Destroy { id } => state.destroyed(id),
        Change::End { id, generation } => state.ended(id, generation),
    }
}

/// The registry after a sequence of changes, first to last.
pub open spec fn run<R>(state: RegistryState<R>, changes: Seq<Change<R>>) -> RegistryState<R>
    decreases changes.len(),
{
    if changes.len() == 0 {
        state
    } else {
        apply(run(state, changes.drop_last()), changes.last())
    }
}

/// Every change keeps the registry valid and never lowers the next
/// generation.
pub proof fn lemma_change_keeps_valid<R>(state: RegistryState<R>, change: Change<R>)
    requires
        state.valid(),
    ensures
        apply(state, change).valid(),
        state.next_generation <= apply(state, change).next_generation,
{
    let after = apply(state, change);
    assert forall|id: Seq<char>| #[trigger] after.sessions.contains_key(id) implies after.sessions[id].generation
        < after.next_generation by {
        if state.sessions.contains_key(id) {
            assert(state.sessions[id].generation < state.next_generation);
        }
    }
}

/// Whatever sequence of creates, resizes, destroys and session ends is
/// applied to the empty registry, the result is valid: it holds finitely
/// many sessions, one per identifier, each of a generation handed out before.
pub proof fn lemma_reachable_is_valid<R>(changes: Seq<Change<R>>)
    ensures
        run(RegistryState::<R>::empty(), changes).valid(),
    decreases changes.len(),
{
    if changes.len() > 0 {
        lemma_reachable_is_valid(changes.drop_last());
        lemma_change_keeps_valid(run(RegistryState::<R>::empty(), changes.drop_last()), changes.last());
    }
}

/// Creating and destroying under one identifier, in any order and any
/// number of times, leaves at most the last created session under it: after
/// a destroy none, after a registration exactly the one just registered.
pub proof fn lemma_create_destroy_same_id<R>(state: RegistryState<R>, id: Seq<char>, resource: R)
    requires
        state.valid(),
    ensures
        !state.destroyed(id).contains(id),
        state.destroyed(id).can_register(id) == !state.exhausted(),
        state.can_register(id) ==> state.registered(id, resource).sessions[id].resource == resource
            && !state.registered(id, resource).can_register(id),
        state.can_register(id) ==> state.registered(id, resource).destroyed(id).sessions
            == state.sessions,
{
    if state.can_register(id) {
        assert(state.registered(id, resource).destroyed(id).sessions =~= state.sessions);
    }
}

/// Resizing twice to the same size is the same as resizing once, and leaves
/// the reported size at that size.
pub proof fn lemma_resize_idempotent<R>(state: RegistryState<R>, id: Seq<char>, size: TermSize)
    ensures
        state.resized(id, size).resized(id, size) == state.resized(id, size),
        state.contains(id) ==> state.resized(id, size).sessions[id].size == size,
        state.resized(id, size).contains(id) == state.contains(id),
{
    if state.contains(id) {
        assert(state.resized(id, size).resized(id, size).sessions =~= state.resized(
            id,
            size,
        ).sessions);
    }
}

/// Destroying an identifier that is not registered changes nothing, and
/// destroying twice is the same as destroying once.
pub proof fn lemma_destroy_idempotent<R>(state: RegistryState<R>, id: Seq<char>)
    ensures
        !state.contains(id) ==> state.destroyed(id) == state,
        state.destroyed(id).destroyed(id) == state.destroyed(id),
{
    if !state.contains(id) {
        assert(state.destroyed(id).sessions =~= state.sessions);
    }
    assert(state.destroyed(id).destroyed(id).sessions =~= state.destroyed(id).sessions);
}

/// On an identifier that was never registered, or that has been destroyed
/// or has ended, `write` and `resize` report that the session was not found,
/// whatever the operating system would have answered.
pub proof fn lemma_absent_is_not_found<R>(
    state: RegistryState<R>,
    id: Seq<char>,
    generation: u64,
    applied: Result<(), String>,
)
    ensures
        !state.contains(id) ==> lookup_failure(state, id) == Some(PtyErrorView::SessionNotFound)
            && resize_failure(state, id, applied) == Some(PtyErrorView::SessionNotFound),
        lookup_failure(state.destroyed(id), id) == Some(PtyErrorView::SessionNotFound),
        resize_failure(state.destroyed(id), id, applied) == Some(PtyErrorView::SessionNotFound),
        state.is_live(id, generation) ==> lookup_failure(state.ended(id, generation), id) == Some(
            PtyErrorView::SessionNotFound,
        ),
{
}

/// A forwarder whose session has been destroyed, or has ended, emits
/// nothing: on every outcome of a read it stops.
pub proof fn lemma_silent_after_destroy<R>(
    state: RegistryState<R>,
    forwarder: ForwarderState,
    read: Result<Seq<u8>, Seq<char>>,
)
    ensures
        forwarder_action(state.destroyed(forwarder.id), forwarder, read) == ActionView::Stop,
        forwarder_action(state.ended(forwarder.id, forwarder.generation), forwarder, read)
            == ActionView::Stop,
{
}

/// Once the session of a generation is gone, no change brings it back.
pub proof fn lemma_retired_stays_retired<R>(
    state: RegistryState<R>,
    change: Change<R>,
    id: Seq<char>,
    generation: u64,
)
    requires
        state.valid(),
        state.retired(id, generation),
    ensures
        apply(state, change).retired(id, generation),
{
    lemma_change_keeps_valid(state, change);
    let after = apply(state, change);
    if after.contains(id) && state.contains(id) {
        assert(after.sessions[id].generation == state.sessions[id].generation);
    }
}

/// After a session has been destroyed, its forwarder stays silent whatever
/// commands follow, also when the identifier is registered again: the new
/// session is of a later generation.
pub proof fn lemma_silent_forever<R>(
    state: RegistryState<R>,
    changes: Seq<Change<R>>,
    forwarder: ForwarderState,
    read: Result<Seq<u8>, Seq<char>>,
)
    requires
        state.valid(),
        state.retired(forwarder.id, forwarder.generation),
    ensures
        run(state, changes).valid(),
        run(state, changes).retired(forwarder.id, forwarder.generation),
        forwarder_action(run(state, changes), forwarder, read) == ActionView::Stop,
    decreases changes.len(),
{
    if changes.len() > 0 {
        let before = run(state, changes.drop_last());
        lemma_silent_forever(state, changes.drop_last(), forwarder, read);
        lemma_change_keeps_valid(before, changes.last());
        lemma_retired_stays_retired(before, changes.last(), forwarder.id, forwarder.generation);
    }
}

/// Destroying a live session retires its generation.
pub proof fn lemma_destroy_retires<R>(state: RegistryState<R>, id: Seq<char>, generation: u64)
    requires
        state.valid(),
        state.is_live(id, generation),
    ensures
        state.destroyed(id).valid(),
        state.destroyed(id).retired(id, generation),
        state.ended(id, generation).retired(id, generation),
{
    lemma_change_keeps_valid(state, Change::Destroy { id });
}

/// A forwarder that has stopped, or has announced the end of its session,
/// never emits again.
pub proof fn lemma_finished_stays_silent<R>(
    state: RegistryState<R>,
    forwarder: ForwarderState,
    read: Result<Seq<u8>, Seq<char>>,
    later: RegistryState<R>,
    later_read: Result<Seq<u8>, Seq<char>>,
)
    requires
        !(forwarder_action(state, forwarder, read) is Emit),
    ensures
        forwarder_after(forwarder, forwarder_action(state, forwarder, read)).finished,
        forwarder_action(
            later,
            forwarder_after(forwarder, forwarder_action(state, forwarder, read)),
            later_read,
        ) == ActionView::Stop,
{
}

/// An event is addressed to the session its bytes were read from and
/// carries exactly those bytes, in order: the forwarder of one session never
/// emits under the identifier of another, and adds or drops nothing.
pub proof fn lemma_events_carry_own_bytes<R>(
    state: RegistryState<R>,
    forwarder: ForwarderState,
    read: Result<Seq<u8>, Seq<char>>,
    other: Seq<char>,
)
    requires
        other != forwarder.id,
    ensures
        match forwarder_action(state, forwarder, read) {
            ActionView::Emit { session_id, payload } => {
                &&& session_id == forwarder.id
                &&& session_id != other
                &&& read == Ok::<Seq<u8>, Seq<char>>(payload)
                &&& state.is_live(forwarder.id, forwarder.generation)
            },
            ActionView::Finish { session_id } => session_id == forwarder.id && session_id != other,
            ActionView::Stop => true,
        },
{
}

/// A change to one session leaves every other session as it was: its
/// resources, its size and its generation.
pub proof fn lemma_change_leaves_others<R>(
    state: RegistryState<R>,
    id: Seq<char>,
    other: Seq<char>,
    resource: R,
    size: TermSize,
    generation: u64,
)
    requires
        other != id,
    ensures
        state.registered(id, resource).contains(other) == state.contains(other),
        state.resized(id, size).contains(other) == state.contains(other),
        state.destroyed(id).contains(other) == state.contains(other),
        state.ended(id, generation).contains(other) == state.contains(other),
        state.contains(other) ==> {
            &&& state.registered(id, resource).sessions[other] == state.sessions[other]
            &&& state.resized(id, size).sessions[other] == state.sessions[other]
            &&& state.destroyed(id).sessions[other] == state.sessions[other]
            &&& state.ended(id, generation).sessions[other] == state.sessions[other]
        },
{
}

} // verus!
