//! The failures that the engine reports to its caller.

use vstd::prelude::*;

verus! {

/// Why a request on a session could not be served.
#[derive(Debug, Clone, Copy, PartialEq, Eq, Structural)]
pub enum EngineError {
    /// No snapshot is stored under the session identifier.
    SessionNotFound,
    /// A query was asked for before the runtime and the decade were chosen.
    IncompleteCriteria,
    /// The store could not be read.
    CacheReadError,
    /// The store could not be written.
    CacheWriteError,
    /// The catalog did not answer, or its answer could not be read.
    UpstreamError,
}

impl EngineError {
    /// A short sentence for the person who sees the failure.
    pub fn message(&self) -> (s: String)
        ensures
            s@ == match *self {
                EngineError::SessionNotFound => "no criteria are stored for this session"@,
                EngineError::IncompleteCriteria => "runtime and decade must be chosen first"@,
                EngineError::CacheReadError => "error reading criteria from cache"@,
                EngineError::CacheWriteError => "error writing criteria to cache"@,
                EngineError::UpstreamError => "error fetching from the movie catalog"@,
            },
    {
        match self {
            EngineError::SessionNotFound => String::from_str(
                "no criteria are stored for this session",
            ),
            EngineError::IncompleteCriteria => String::from_str(
                "runtime and decade must be chosen first",
            ),
            EngineError::CacheReadError => String::from_str("error reading criteria from cache"),
            EngineError::CacheWriteError => String::from_str("error writing criteria to cache"),
            EngineError::UpstreamError => String::from_str("error fetching from the movie catalog"),
        }
    }
}

} // verus!
