//! The closed set of failures a session command can report.

use vstd::prelude::*;
use vstd::string::StringExecFns;

verus! {

/// Why a session command was refused.
///
/// The three `*Failed` variants carry the cause reported by the operating
/// system, unchanged.
#[derive(Debug, PartialEq, Eq)]
pub enum PtyError {
    /// `create` named an identifier that is already registered.
    DuplicateSession,
    /// The identifier names no registered session.
    SessionNotFound,
    /// The pseudo-terminal could not be allocated or the shell not started.
    SpawnFailed(String),
    /// Writing to, or flushing, the master end failed.
    WriteFailed(String),
    /// The operating system refused the new terminal size.
    ResizeFailed(String),
}

/// A failure with its cause as a sequence of characters.
pub enum PtyErrorView {
    DuplicateSession,
    SessionNotFound,
    SpawnFailed(Seq<char>),
    WriteFailed(Seq<char>),
    ResizeFailed(Seq<char>),
}

impl View for PtyError {
    type V = PtyErrorView;

    open spec fn view(&self) -> PtyErrorView {
        match self {
            PtyError::DuplicateSession => PtyErrorView::DuplicateSession,
            PtyError::SessionNotFound => PtyErrorView::SessionNotFound,
            PtyError::SpawnFailed(cause) => PtyErrorView::SpawnFailed(cause@),
            PtyError::WriteFailed(cause) => PtyErrorView::WriteFailed(cause@),
            PtyError::ResizeFailed(cause) => PtyErrorView::ResizeFailed(cause@),
        }
    }
}

impl PtyErrorView {
    /// The text shown to the front-end for this failure.
    pub open spec fn message_text(self) -> Seq<char> {
        match self {
            PtyErrorView::DuplicateSession => "PTY already exists"@,
            PtyErrorView::SessionNotFound => "PTY not found"@,
            PtyErrorView::SpawnFailed(cause) => cause,
            PtyErrorView::WriteFailed(cause) => cause,
            PtyErrorView::ResizeFailed(cause) => cause,
        }
    }
}

impl PtyError {

    /// Renders the failure as the text handed to the front-end: a fixed
    /// phrase for the two lookup failures, the operating system's own words
    /// for the others.
    pub fn message(&self) -> (text: String)
        ensures
            text@ == self@.message_text(),
    {
        match self {
            PtyError::DuplicateSession => String::from_str("PTY already exists"),
            PtyError::SessionNotFound => String::from_str("PTY not found"),
            PtyError::SpawnFailed(cause) => cause.clone(),
            PtyError::WriteFailed(cause) => cause.clone(),
            PtyError::ResizeFailed(cause) => cause.clone(),
        }
    }
}

} // verus!
