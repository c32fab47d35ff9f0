//! What comes back from a call across the boundary.

use crate::error::{Error, Failure, ScriptError, ScriptFailure};
use crate::protocol;
use crate::protocol::WireError;
use vstd::prelude::*;

verus! {

/// What came back from one call across the boundary.
#[derive(Debug, Clone, PartialEq, Eq)]
pub enum Reply<T> {
    /// The other side answered with a payload, which was decoded.
    Returned(T),
    /// The other side answered with an error.
    Failed(protocol::Error),
    /// The other side answered, but the answer could not be decoded; the
    /// text says why.
    Undecodable(String),
    /// The sandbox cut the call short.
    Aborted,
}

/// The error for an error that the other side reported.
pub open spec fn surfaced(error: WireError) -> Failure {
    match error {
        WireError::Message(text) => Failure::Script(ScriptFailure::Raised(text)),
        WireError::WrongType(text) => Failure::WrongType(text),
    }
}

impl<T> Reply<T> {
    /// What the reply comes to: its payload, or the error that stands for
    /// it. A reported error is surfaced, an undecodable reply is a
    /// `Protocol` error, and a call cut short is a script error.
    pub open spec fn outcome(self) -> Result<T, Failure> {
        match self {
            Reply::Returned(payload) => Ok(payload),
            Reply::Failed(error) => Err(surfaced(error@)),
            Reply::Undecodable(text) => Err(Failure::Protocol(text@)),
            Reply::Aborted => Err(Failure::Script(ScriptFailure::Aborted)),
        }
    }

    /// The payload of the reply, or the error that stands for the reply.
    pub fn payload(self) -> (r: Result<T, Error>)
        ensures
            match r {
                Ok(payload) => self.outcome() == Ok::<T, Failure>(payload),
                Err(e) => self.outcome() == Err::<T, Failure>(e@),
            },
    {
        match self {
            Reply::Returned(payload) => Ok(payload),
            Reply::Failed(protocol::Error::Message(text)) => Err(
                Error::Script(ScriptError::Raised(text)),
            ),
            Reply::Failed(protocol::Error::WrongType(text)) => Err(Error::WrongType(text)),
            Reply::Undecodable(text) => Err(Error::Protocol(text)),
            Reply::Aborted => Err(Error::Script(ScriptError::Aborted)),
        }
    }
}

} // verus!
