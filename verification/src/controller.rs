//! The session commands: create, write, resize, destroy.
//!
//! A command that needs the operating system comes in two halves. The first
//! checks the registry and says what to ask of the operating system; the
//! embedding program does that and hands the outcome to the second half,
//! which updates the registry or names the failure. `destroy` needs no
//! second half: it hands the removed session to the caller for teardown.

use vstd::prelude::*;
use vstd::string::StringExecFns;
use crate::error::{PtyError, PtyErrorView};
use crate::forwarder::{Forwarder, ForwarderState};
use crate::model::RegistryState;
use crate::registry::Registry;
use crate::session::{Session, TermSize};

verus! {

/// The program started when the caller names none.
pub open spec fn default_shell() -> Seq<char> {
    "bash"@
}

/// The cause reported when a session cannot be registered because every
/// generation has been handed out.
pub open spec fn exhausted_cause() -> Seq<char> {
    "session generations exhausted"@
}

/// What to ask of the operating system for a new session.
#[derive(Debug, PartialEq, Eq)]
pub struct SpawnRequest {
    /// The program to start on the slave end.
    pub program: String,
    /// The size to open the pseudo-terminal with.
    pub size: TermSize,
}

/// A spawn request by the plain values it carries.
pub struct SpawnRequestView {
    pub program: Seq<char>,
    pub size: TermSize,
}

impl View for SpawnRequest {
    type V = SpawnRequestView;

    open spec fn view(&self) -> SpawnRequestView {
        SpawnRequestView { program: self.program@, size: self.size }
    }
}

/// A write to carry out: the bytes, and the session to send them to.
#[derive(Debug)]
pub struct WriteRequest<'a, R> {
    /// The resources of the session the command named.
    pub target: &'a R,
    /// The caller's bytes, unchanged and in order.
    pub bytes: Vec<u8>,
}

/// A resize to carry out: the new size, and the session to apply it to.
#[derive(Debug)]
pub struct ResizeRequest<'a, R> {
    /// The resources of the session the command named.
    pub target: &'a R,
    /// The size to advertise.
    pub size: TermSize,
}

/// A refused registration: the failure, and the resources that were spawned
/// for the session, if any, which the caller must now release.
#[derive(Debug)]
pub struct Rejected<R> {
    pub error: PtyError,
    pub resource: Option<R>,
}

/// The first half of `create`, as a function of the registry.
pub open spec fn spawn_plan<R>(
    registry: RegistryState<R>,
    id: Seq<char>,
    shell: Option<Seq<char>>,
) -> Result<SpawnRequestView, PtyErrorView> {
    if registry.contains(id) {
        Err(PtyErrorView::DuplicateSession)
    } else if registry.exhausted() {
        Err(PtyErrorView::SpawnFailed(exhausted_cause()))
    } else {
        Ok(
            SpawnRequestView {
                program: match shell {
                    Some(path) => path,
                    None => default_shell(),
                },
                size: TermSize::initial_size(),
            },
        )
    }
}

/// The failure of the second half of `create`, if it fails.
pub open spec fn create_failure<R>(
    registry: RegistryState<R>,
    id: Seq<char>,
    spawned: Result<R, String>,
) -> Option<PtyErrorView> {
    if registry.contains(id) {
        Some(PtyErrorView::DuplicateSession)
    } else if registry.exhausted() {
        Some(PtyErrorView::SpawnFailed(exhausted_cause()))
    } else {
        match spawned {
            Ok(_) => None,
            Err(cause) => Some(PtyErrorView::SpawnFailed(cause@)),
        }
    }
}

/// The failure of a command that needs a registered session, if it fails
/// before the operating system is asked.
pub open spec fn lookup_failure<R>(registry: RegistryState<R>, id: Seq<char>) -> Option<
    PtyErrorView,
> {
    if registry.contains(id) {
        None
    } else {
        Some(PtyErrorView::SessionNotFound)
    }
}

/// The failure of the second half of `resize`, if it fails.
pub open spec fn resize_failure<R>(
    registry: RegistryState<R>,
    id: Seq<char>,
    applied: Result<(), String>,
) -> Option<PtyErrorView> {
    if !registry.contains(id) {
        Some(PtyErrorView::SessionNotFound)
    } else {
        match applied {
            Ok(_) => None,
            Err(cause) => Some(PtyErrorView::ResizeFailed(cause@)),
        }
    }
}

/// First half of `create`: refuses an identifier that is taken, and
/// otherwise says what to spawn: the program `shell`, or `bash` when none
/// is given, on a pseudo-terminal of 24 rows by 80 columns.
pub fn create_pty<R>(registry: &Registry<R>, id: &str, shell: Option<String>) -> (plan: Result<
    SpawnRequest,
    PtyError,
>)
    ensures
        match plan {
            Ok(request) => spawn_plan(registry@, id@, shell_view(shell)) == Ok::<
                SpawnRequestView,
                PtyErrorView,
            >(request@),
            Err(error) => spawn_plan(registry@, id@, shell_view(shell)) == Err::<
                SpawnRequestView,
                PtyErrorView,
            >(error@),
        },
{
    if registry.contains(id) {
        return Err(PtyError::DuplicateSession);
    }
    if registry.exhausted() {
        return Err(PtyError::SpawnFailed(String::from_str("session generations exhausted")));
    }
    let program = match shell {
        Some(path) => path,
        None => String::from_str("bash"),
    };
    Ok(SpawnRequest { program, size: TermSize::initial() })
}

/// The shell override by the plain value it carries.
pub open spec fn shell_view(shell: Option<String>) -> Option<Seq<char>> {
    match shell {
        Some(path) => Some(path@),
        None => None,
    }
}

/// Second half of `create`: takes the outcome of the spawn, `Ok` with the
/// new session's resources or `Err` with the operating system's words.
///
/// On success the session is registered under `id` at the initial size and
/// the call returns the forwarder to start for it. On failure the registry
/// is unchanged, and resources that were spawned in vain come back inside
/// the rejection.
pub fn finish_create<R>(registry: &mut Registry<R>, id: &str, spawned: Result<R, String>) -> (outcome:
    Result<Forwarder, Rejected<R>>)
    ensures
        final(registry).wf(),
        match outcome {
            Ok(forwarder) => {
                &&& create_failure(old(registry)@, id@, spawned) is None
                &&& spawned is Ok
                &&& final(registry)@ == old(registry)@.registered(id@, spawned->Ok_0)
                &&& forwarder@ == (ForwarderState {
                    id: id@,
                    generation: old(registry)@.next_generation,
                    finished: false,
                })
            },
            Err(rejected) => {
                &&& create_failure(old(registry)@, id@, spawned) == Some(rejected.error@)
                &&& final(registry)@ == old(registry)@
                &&& rejected.resource == (match spawned {
                    Ok(resource) => Some(resource),
                    Err(_) => None,
                })
            },
        },
{
    proof {
        use_type_invariant(&*registry);
    }
    if registry.contains(id) {
        let resource = match spawned {
            Ok(resource) => Some(resource),
            Err(_) => None,
        };
        return Err(Rejected { error: PtyError::DuplicateSession, resource });
    }
    if registry.exhausted() {
        let resource = match spawned {
            Ok(resource) => Some(resource),
            Err(_) => None,
        };
        return Err(
            Rejected {
                error: PtyError::SpawnFailed(String::from_str("session generations exhausted")),
                resource,
            },
        );
    }
    match spawned {
        Err(cause) => Err(Rejected { error: PtyError::SpawnFailed(cause), resource: None }),
        Ok(resource) => {
            match registry.insert_if_absent(id, resource) {
                Ok(generation) => Ok(Forwarder::new(String::from_str(id), generation)),
                Err(resource) => Err(
                    Rejected { error: PtyError::DuplicateSession, resource: Some(resource) },
                ),
            }
        },
    }
}

/// First half of `write`: finds the session and hands back its resources
/// together with the bytes to send, which are the caller's bytes unchanged.
pub fn write_pty<'a, R>(registry: &'a Registry<R>, id: &str, data: Vec<u8>) -> (plan: Result<
    WriteRequest<'a, R>,
    PtyError,
>)
    ensures
        match plan {
            Ok(request) => {
                &&& lookup_failure(registry@, id@) is None
                &&& *request.target == registry@.sessions[id@].resource
                &&& request.bytes == data
            },
            Err(error) => lookup_failure(registry@, id@) == Some(error@),
        },
{
    match registry.get(id) {
        Some(target) => Ok(WriteRequest { target, bytes: data }),
        None => Err(PtyError::SessionNotFound),
    }
}

/// Second half of `write`: names the failure of the write or the flush, if
/// there was one, with the operating system's words.
pub fn finish_write(written: Result<(), String>) -> (outcome: Result<(), PtyError>)
    ensures
        match written {
            Ok(_) => outcome is Ok,
            Err(cause) => outcome == Err::<(), PtyError>(PtyError::WriteFailed(cause)),
        },
{
    match written {
        Ok(_) => Ok(()),
        Err(cause) => Err(PtyError::WriteFailed(cause)),
    }
}

/// First half of `resize`: finds the session and hands back its resources
/// together with the size to advertise.
pub fn resize_pty<'a, R>(registry: &'a Registry<R>, id: &str, cols: u16, rows: u16) -> (plan:
    Result<ResizeRequest<'a, R>, PtyError>)
    ensures
        match plan {
            Ok(request) => {
                &&& lookup_failure(registry@, id@) is None
                &&& *request.target == registry@.sessions[id@].resource
                &&& request.size == (TermSize { rows, cols })
            },
            Err(error) => lookup_failure(registry@, id@) == Some(error@),
        },
{
    match registry.get(id) {
        Some(target) => Ok(ResizeRequest { target, size: TermSize::from_cols_rows(cols, rows) }),
        None => Err(PtyError::SessionNotFound),
    }
}

/// Second half of `resize`: takes the outcome of the operating system's
/// resize. On success the session's recorded size becomes `size`; on any
/// failure the registry is unchanged.
pub fn finish_resize<R>(
    registry: &mut Registry<R>,
    id: &str,
    size: TermSize,
    applied: Result<(), String>,
) -> (outcome: Result<(), PtyError>)
    ensures
        final(registry).wf(),
        match outcome {
            Ok(_) => {
                &&& resize_failure(old(registry)@, id@, applied) is None
                &&& final(registry)@ == old(registry)@.resized(id@, size)
            },
            Err(error) => {
                &&& resize_failure(old(registry)@, id@, applied) == Some(error@)
                &&& final(registry)@ == old(registry)@
            },
        },
{
    proof {
        use_type_invariant(&*registry);
    }
    if !registry.contains(id) {
        return Err(PtyError::SessionNotFound);
    }
    match applied {
        Err(cause) => Err(PtyError::ResizeFailed(cause)),
        Ok(_) => {
            registry.set_size(id, size);
            Ok(())
        },
    }
}

/// `destroy`: removes the session named `id` and hands its record to the
/// caller, who releases the resources. Never fails: without such a session
/// the registry is unchanged and there is nothing to release.
pub fn destroy_pty<R>(registry: &mut Registry<R>, id: &str) -> (outcome: Result<
    Option<Session<R>>,
    PtyError,
>)
    ensures
        final(registry).wf(),
        final(registry)@ == old(registry)@.destroyed(id@),
        outcome is Ok,
        match outcome->Ok_0 {
            Some(session) => old(registry)@.contains(id@) && session.name() == id@ && session@
                == old(registry)@.sessions[id@],
            None => !old(registry)@.contains(id@) && final(registry)@ == old(registry)@,
        },
{
    let removed = registry.remove(id);
    proof {
        if removed is None {
            assert(old(registry)@.sessions.remove(id@) =~= old(registry)@.sessions);
        }
    }
    Ok(removed)
}

/// Cleanup after a session has ended by itself: removes the session the
/// forwarder was reading from, if it is still registered, and hands its
/// record to the caller. A session registered later under the same
/// identifier is left alone.
pub fn reap_pty<R>(registry: &mut Registry<R>, forwarder: &Forwarder) -> (removed: Option<
    Session<R>,
>)
    ensures
        final(registry).wf(),
        final(registry)@ == old(registry)@.ended(forwarder@.id, forwarder@.generation),
        match removed {
            Some(session) => old(registry)@.is_live(forwarder@.id, forwarder@.generation)
                && session.name() == forwarder@.id && session@ == old(registry)@.sessions[forwarder@.id],
            None => !old(registry)@.is_live(forwarder@.id, forwarder@.generation),
        },
{
    proof {
        use_type_invariant(&*registry);
    }
    if registry.is_live(forwarder.id().as_str(), forwarder.generation()) {
        registry.remove(forwarder.id().as_str())
    } else {
        None
    }
}

} // verus!
