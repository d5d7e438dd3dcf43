//! Plain data describing one terminal session.

use vstd::prelude::*;

verus! {

/// Rows of a freshly created terminal.
pub const DEFAULT_ROWS: u16 = 24;

/// Columns of a freshly created terminal.
pub const DEFAULT_COLS: u16 = 80;

/// The advertised size of a terminal, in character cells.
#[derive(Clone, Copy, Debug, PartialEq, Eq, Structural)]
pub struct TermSize {
    pub rows: u16,
    pub cols: u16,
}

impl TermSize {
    /// The size every session starts with.
    pub open spec fn initial_size() -> TermSize {
        TermSize { rows: DEFAULT_ROWS, cols: DEFAULT_COLS }
    }

    /// The size every session starts with: 24 rows of 80 columns.
    pub fn initial() -> (size: TermSize)
        ensures
            size == TermSize::initial_size(),
    {
        TermSize { rows: DEFAULT_ROWS, cols: DEFAULT_COLS }
    }

    /// A size from the column-first pair the front-end sends.
    pub fn from_cols_rows(cols: u16, rows: u16) -> (size: TermSize)
        ensures
            size == (TermSize { rows, cols }),
    {
        TermSize { rows, cols }
    }
}

/// What the registry knows of one session, apart from its identifier.
///
/// `R` is the embedding program's bundle of operating-system resources:
/// the master end, its reader and writer, and the child process.
pub struct SessionState<R> {
    /// Which incarnation of its identifier this session is.
    pub generation: u64,
    /// The size last applied successfully.
    pub size: TermSize,
    /// The operating-system resources of the session.
    pub resource: R,
}

/// One session as stored in, or taken out of, the registry.
#[derive(Debug)]
pub struct Session<R> {
    id: String,
    generation: u64,
    size: TermSize,
    resource: R,
}

impl<R> View for Session<R> {
    type V = SessionState<R>;

    closed spec fn view(&self) -> SessionState<R> {
        SessionState { generation: self.generation, size: self.size, resource: self.resource }
    }
}

impl<R> Session<R> {
    /// The identifier the session was registered under.
    pub closed spec fn name(&self) -> Seq<char> {
        self.id@
    }

    /// Assembles a session record.
    pub(crate) fn new(id: String, generation: u64, size: TermSize, resource: R) -> (session: Self)
        ensures
            session.name() == id@,
            session@ == (SessionState { generation, size, resource }),
    {
        Session { id, generation, size, resource }
    }

    /// The identifier the session was registered under.
    pub fn id(&self) -> (id: &String)
        ensures
            id@ == self.name(),
    {
        &self.id
    }

    /// Which incarnation of its identifier this session is.
    pub fn generation(&self) -> (generation: u64)
        ensures
            generation == self@.generation,
    {
        self.generation
    }

    /// The size last applied successfully.
    pub fn size(&self) -> (size: TermSize)
        ensures
            size == self@.size,
    {
        self.size
    }

    /// The operating-system resources of the session.
    pub fn resource(&self) -> (resource: &R)
        ensures
            *resource == self@.resource,
    {
        &self.resource
    }

    /// Gives up the record and hands the resources to the caller, who is
    /// then responsible for releasing them.
    pub fn into_resource(self) -> (resource: R)
        ensures
            resource == self@.resource,
    {
        self.resource
    }

    /// Records a new size; identifier, generation and resources stay.
    pub(crate) fn set_size(&mut self, size: TermSize)
        ensures
            final(self).name() == old(self).name(),
            final(self)@ == (SessionState { size, ..old(self)@ }),
    {
        self.size = size;
    }
}

} // verus!
