//! What can go wrong while a state is generated.

use vstd::prelude::*;

verus! {

/// Who is to blame for a failure.
#[derive(Clone, Copy, PartialEq, Eq, Debug, Structural)]
pub enum ErrorCause {
    /// The request: it asked for something that is not there or not valid.
    Client,
    /// The server: an internal failure.
    Server,
}

/// A build-time function failed: a bug of the template's author, or build-time
/// data that could not be had.
#[derive(Clone, Debug, PartialEq, Eq)]
pub struct BuildError {
    pub message: String,
}

/// A request-time function, or the merge of two states, failed.
#[derive(Clone, Debug, PartialEq, Eq)]
pub struct RequestError {
    pub cause: ErrorCause,
    pub message: String,
}

/// Why a request for a state was not answered with one.
#[derive(Clone, Debug, PartialEq, Eq)]
pub enum GenerationError {
    /// The build-time function failed.
    Build(BuildError),
    /// The request-time function or the merge failed.
    Request(RequestError),
    /// The template declares no generation for what was asked of it.
    StrategyMismatch,
    /// A build of the same key broke off while it held the build lock.
    LockPoisoned,
    /// The caller waited for two builds of the key by others, and neither left an
    /// entry.
    Unavailable,
}

impl GenerationError {
    /// Who is to blame: the request only where a request-time function said so,
    /// the server for everything else.
    pub open spec fn spec_cause(&self) -> ErrorCause {
        match self {
            GenerationError::Request(error) => error.cause,
            _ => ErrorCause::Server,
        }
    }

    /// Who is to blame for this failure.
    #[verifier::when_used_as_spec(spec_cause)]
    pub fn cause(&self) -> (cause: ErrorCause)
        ensures
            cause == self.spec_cause(),
    {
        match self {
            GenerationError::Request(error) => error.cause,
            _ => ErrorCause::Server,
        }
    }
}

} // verus!
