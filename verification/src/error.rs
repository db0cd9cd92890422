//! Failure taxonomy for one render attempt: a transport failure while
//! spawning the engine or operating its pipes, a diagnostic the engine
//! itself reported by exiting non-zero, or an expired deadline.

use vstd::prelude::*;
use vstd::string::StringExecFns;

verus! {

/// One classified failure per failed render; a render either fully
/// succeeds with complete output bytes or fails with one of these.
#[derive(Debug)]
pub enum Error {
    /// Transport failure: an I/O error spawning the process or operating
    /// its pipes, carried as the underlying error's text.
    Io(String),
    /// Engine failure: the process exited non-zero; the payload is its
    /// standard-error text with the engine banner already stripped.
    Dot(String),
    /// The request's wall-clock deadline expired.
    Timeout,
}

impl Error {
    /// The failure text shown to callers: the carried diagnostic for
    /// transport and engine failures, a fixed phrase for a timeout.
    pub fn message(&self) -> (r: String)
        ensures
            (match self {
                Error::Io(s) => r@ == s@,
                Error::Dot(s) => r@ == s@,
                Error::Timeout => r@ == "operation timed out"@,
            }),
    {
        match self {
            Error::Io(s) => s.clone(),
            Error::Dot(s) => s.clone(),
            Error::Timeout => String::from_str("operation timed out"),
        }
    }
}

} // verus!
