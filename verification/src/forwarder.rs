//! The output forwarder of one session, as a state machine.
//!
//! The embedding program runs one reader per session. After every read it
//! takes the registry lock for a moment, hands the outcome of the read to
//! [`forwarder_step`], and performs the action it gets back. Reads themselves
//! happen without the lock.

use vstd::prelude::*;
use crate::model::RegistryState;
use crate::registry::Registry;

verus! {

/// The forwarder as a mathematical object.
pub struct ForwarderState {
    /// The identifier its events are addressed to.
    pub id: Seq<char>,
    /// The generation of the session it reads from.
    pub generation: u64,
    /// Whether it has stopped for good.
    pub finished: bool,
}

/// The forwarder bound to one session: it knows whose output it relays and
/// whether it has stopped.
#[derive(Debug)]
pub struct Forwarder {
    id: String,
    generation: u64,
    finished: bool,
}

impl View for Forwarder {
    type V = ForwarderState;

    closed spec fn view(&self) -> ForwarderState {
        ForwarderState { id: self.id@, generation: self.generation, finished: self.finished }
    }
}

impl Forwarder {
    /// A running forwarder for the session `id` of `generation`.
    pub(crate) fn new(id: String, generation: u64) -> (forwarder: Self)
        ensures
            forwarder@ == (ForwarderState { id: id@, generation, finished: false }),
    {
        Forwarder { id, generation, finished: false }
    }

    /// The identifier its events are addressed to.
    pub fn id(&self) -> (id: &String)
        ensures
            id@ == self@.id,
    {
        &self.id
    }

    /// The generation of the session it reads from.
    pub fn generation(&self) -> (generation: u64)
        ensures
            generation == self@.generation,
    {
        self.generation
    }

    /// Whether it has stopped for good.
    pub fn is_finished(&self) -> (finished: bool)
        ensures
            finished == self@.finished,
    {
        self.finished
    }
}

/// A chunk of output, addressed to the session that produced it. The payload
/// is the bytes as read, not text.
#[derive(Debug, PartialEq, Eq)]
pub struct OutputEvent {
    pub session_id: String,
    pub payload: Vec<u8>,
}

/// The notice that a session's child process has ended.
#[derive(Debug, PartialEq, Eq)]
pub struct ExitEvent {
    pub session_id: String,
}

/// What the embedding program does after a read.
#[derive(Debug, PartialEq, Eq)]
pub enum ForwarderAction {
    /// Push the event to the front-end and read again.
    Emit(OutputEvent),
    /// Push the exit event, ask the controller to clean the session up, and
    /// end the reader.
    Finish(ExitEvent),
    /// End the reader without pushing anything.
    Stop,
}

/// An action by the plain values it carries.
pub enum ActionView {
    Emit { session_id: Seq<char>, payload: Seq<u8> },
    Finish { session_id: Seq<char> },
    Stop,
}

impl View for ForwarderAction {
    type V = ActionView;

    open spec fn view(&self) -> ActionView {
        match self {
            ForwarderAction::Emit(event) => ActionView::Emit {
                session_id: event.session_id@,
                payload: event.payload@,
            },
            ForwarderAction::Finish(event) => ActionView::Finish { session_id: event.session_id@ },
            ForwarderAction::Stop => ActionView::Stop,
        }
    }
}

/// The outcome of a read by the plain values it carries.
pub open spec fn read_view(read: Result<Vec<u8>, String>) -> Result<Seq<u8>, Seq<char>> {
    match read {
        Ok(bytes) => Ok(bytes@),
        Err(cause) => Err(cause@),
    }
}

/// The action a forwarder takes on the outcome of a read.
///
/// A forwarder that has finished, or whose session is no longer the one
/// registered under its identifier, stops silently. Otherwise a non-empty
/// read is relayed unchanged under the forwarder's own identifier, and an
/// empty or failed read, which is how the operating system reports that the
/// child side is closed, ends the session.
pub open spec fn forwarder_action<R>(
    registry: RegistryState<R>,
    forwarder: ForwarderState,
    read: Result<Seq<u8>, Seq<char>>,
) -> ActionView {
    if forwarder.finished || !registry.is_live(forwarder.id, forwarder.generation) {
        ActionView::Stop
    } else {
        match read {
            Ok(bytes) => if bytes.len() > 0 {
                ActionView::Emit { session_id: forwarder.id, payload: bytes }
            } else {
                ActionView::Finish { session_id: forwarder.id }
            },
            Err(_) => ActionView::Finish { session_id: forwarder.id },
        }
    }
}

/// The forwarder after it has taken `action`: it goes on only after an emit.
pub open spec fn forwarder_after(forwarder: ForwarderState, action: ActionView) -> ForwarderState {
    ForwarderState { finished: !(action is Emit), ..forwarder }
}

/// Decides what to do with the outcome of one read and advances the
/// forwarder. `read` is the bytes the read returned, or the cause of its
/// failure.
pub fn forwarder_step<R>(
    registry: &Registry<R>,
    forwarder: &mut Forwarder,
    read: Result<Vec<u8>, String>,
) -> (action: ForwarderAction)
    ensures
        action@ == forwarder_action(registry@, old(forwarder)@, read_view(read)),
        final(forwarder)@ == forwarder_after(old(forwarder)@, action@),
{
    if forwarder.finished || !registry.is_live(forwarder.id.as_str(), forwarder.generation) {
        forwarder.finished = true;
        return ForwarderAction::Stop;
    }
    match read {
        Ok(bytes) => {
            if bytes.len() > 0 {
                ForwarderAction::Emit(
                    OutputEvent { session_id: forwarder.id.clone(), payload: bytes },
                )
            } else {
                forwarder.finished = true;
                ForwarderAction::Finish(ExitEvent { session_id: forwarder.id.clone() })
            }
        },
        Err(_) => {
            forwarder.finished = true;
            ForwarderAction::Finish(ExitEvent { session_id: forwarder.id.clone() })
        },
    }
}

} // verus!
