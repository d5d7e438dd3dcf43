//! Core of a desktop terminal backend: a registry of pseudo-terminal
//! sessions, the decisions behind the create / write / resize / destroy
//! commands, and the per-session output forwarder.
//!
//! The session logic performs no I/O. Every command that needs the
//! operating system is split into a decision taken here and an effect
//! carried out by the embedding program, which reports the outcome back as a
//! plain value.
//!
//! Beside the sessions the crate holds the document helpers of the same
//! application: markdown to HTML, the headings of a document, and a word
//! count.

pub mod error;
pub mod session;
pub mod model;
pub mod registry;
pub mod forwarder;
pub mod controller;
pub mod laws;
pub mod text;
pub mod markdown;
pub mod headings;
pub mod commands;
