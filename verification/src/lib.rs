//! Core of a tool that drafts a pull-request description or title: it diffs
//! two revisions, composes a prompt from the diff plus role, directive and
//! template text, and prepares one request to an interchangeable text
//! generation backend, then reduces the backend's reply to plain text.
//!
//! Everything here is plain computation over strings and structured values;
//! the process spawning and the HTTP call themselves live with the caller,
//! which hands their raw outcomes back in.

pub mod error;
pub mod git;
pub mod json;
pub mod providers;
pub mod settings;
pub mod text;
