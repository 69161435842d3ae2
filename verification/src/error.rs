//! The failure taxonomy of the client.  Every fallible step of a cycle
//! reports one of these, and the cycle driver decides recoverable against
//! fatal: only `StartupFailure` may end the process, everything else is
//! logged and the loop goes on with its previous good state.

use vstd::prelude::*;

verus! {

/// What went wrong during a cycle or at startup.
///
/// - `TransportFailure`: the server was unreachable (a connection or
///   network error, carrying the underlying message).
/// - `ProtocolFailure`: the server was reachable but answered outside the
///   protocol (a non-success HTTP status, or a missing or malformed
///   `Content-Type` header).
/// - `InvalidInterval`: the interval endpoint's body was not a positive
///   base-10 integer.
/// - `CacheListFailure`: the cache directory could not be listed.
/// - `CacheWriteFailure`: a downloaded wallpaper could not be written.
/// - `ApplyFailure`: the setter subprocess could not be spawned
///   (`exit_code` is `None`) or exited with a non-zero status (`exit_code`
///   carries the code, or `None` when the process reported none).
/// - `StartupFailure`: no usable data or cache directory could be resolved
///   or created; the only fatal class.
#[derive(Debug, Clone, PartialEq, Eq)]
pub enum Error {
    TransportFailure(String),
    ProtocolFailure(String),
    InvalidInterval,
    CacheListFailure { path: String, message: String },
    CacheWriteFailure { path: String, message: String },
    ApplyFailure { exit_code: Option<i32> },
    StartupFailure(String),
}

impl Error {
    /// True exactly for the one error class that must abort the process.
    pub fn is_fatal(&self) -> (r: bool)
        ensures
            r == (self is StartupFailure),
    {
        match self {
            Error::StartupFailure(_) => true,
            _ => false,
        }
    }
}

} // verus!
