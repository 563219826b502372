//! The worker's error taxonomy.
//!
//! Every failure a cycle can meet is one of these; none of them ever
//! terminates the worker, only a missing configuration value at startup
//! does.

use vstd::prelude::*;

verus! {

/// What went wrong, as the worker classifies it.
#[derive(Clone, Copy, PartialEq, Eq, Structural, Debug)]
pub enum WorkerError {
    /// A required configuration value is absent at startup; fatal.
    Config,
    /// A network or HTTP-level failure against either remote service.
    Transport,
    /// A remote response parsed, but an expected field is missing.
    ResponseShape,
    /// A remote response body, or the text embedded in one, is not JSON.
    Parse,
    /// A fetched record carries no usable identifier.
    InvalidRecord,
}

impl WorkerError {
    /// The words this error is reported with.
    pub open spec fn spec_message(self) -> Seq<char> {
        match self {
            WorkerError::Config => "missing required configuration"@,
            WorkerError::Transport => "transport failure"@,
            WorkerError::ResponseShape => "response is missing an expected field"@,
            WorkerError::Parse => "response text is not valid JSON"@,
            WorkerError::InvalidRecord => "record has no usable identifier"@,
        }
    }

    /// Returns the words this error is reported with.
    pub fn message(self) -> (r: &'static str)
        ensures
            r@ == self.spec_message(),
    {
        match self {
            WorkerError::Config => "missing required configuration",
            WorkerError::Transport => "transport failure",
            WorkerError::ResponseShape => "response is missing an expected field",
            WorkerError::Parse => "response text is not valid JSON",
            WorkerError::InvalidRecord => "record has no usable identifier",
        }
    }
}

} // verus!
