//! Error taxonomy of the runtime.

use vstd::prelude::*;

verus! {

/// An error surfaced by the runtime.
#[derive(Debug, Clone, PartialEq)]
pub enum RTDError {
    /// A raw event from the engine could not be decoded: the stream is
    /// corrupt, which is fatal to the event pump.
    SerdeJson(String),
    /// The engine reported a failure, for instance a rejected handshake.
    TdlibError(String),
    /// A protocol violation inside the runtime itself.
    Internal(&'static str),
    /// A bounded channel send did not complete within the configured timeout.
    SendTimeout(String),
}

impl RTDError {
    /// A human-readable description of the error.
    pub fn message(&self) -> (r: String)
        ensures
            r@ == self.spec_message(),
    {
        match self {
            RTDError::SerdeJson(s) => s.clone(),
            RTDError::TdlibError(s) => s.clone(),
            RTDError::Internal(s) => (*s).to_owned(),
            RTDError::SendTimeout(s) => s.clone(),
        }
    }

    /// The description `message` returns.
    pub open spec fn spec_message(self) -> Seq<char> {
        match self {
            RTDError::SerdeJson(s) => s@,
            RTDError::TdlibError(s) => s@,
            RTDError::Internal(s) => s@,
            RTDError::SendTimeout(s) => s@,
        }
    }
}

/// Result alias used throughout the runtime.
pub type RTDResult<T> = Result<T, RTDError>;

} // verus!
