//! Failures of the protocol client.
use vstd::prelude::*;

verus! {

/// Why a request could not be made or answered.
#[derive(Debug, PartialEq, Eq)]
pub enum Error {
    /// No session was named, explicitly or by the environment.
    NoSession,
    /// The operation needs something that is absent.
    InvalidContext(String),
    /// A command text that is mandatory is empty.
    CommandRequired,
    /// Spawning the editor, writing to it, or waiting for it failed.
    TransportError(String),
    /// No answer arrived on the recovery channel in time.
    QueryTimeout,
    /// The editor reported an error for the query, such as an unknown name.
    EmptyResult(String),
    /// The editor could not be started in place of this process.
    ExecFailure(String),
}

} // verus!
