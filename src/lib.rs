//! Client side of a command and query protocol for sessions of a modal text
//! editor that only accepts scripts piped into a named session.

pub mod context;
pub mod error;
pub mod selector;
pub mod split;
mod text;
