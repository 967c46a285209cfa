//! The error taxonomy of the driver.

use vstd::prelude::*;

use crate::messages::{MessageType, RegisterStatus};

verus! {

/// Everything that can make the handshake or the dispatch loop fail.
///
/// Transport and decoding failures are never absorbed: they terminate the
/// operation in which they arise and propagate to the caller.
#[derive(Clone, Debug, PartialEq, Eq)]
pub enum Error {
    /// A transport-level receive failure or a disconnection; the string is
    /// the transport's own diagnostic.
    ReceiveError(String),
    /// A transport-level send failure.
    SendError(String),
    /// A payload that is malformed or misses a required field.
    EncodingError(String),
    /// The validator answered registration with an explicit non-retryable
    /// status.
    RegistrationFailure(RegisterStatus),
    /// A reply of the wrong type to a pending request: a protocol violation.
    UnexpectedMessageType(MessageType),
}

impl Error {
    /// A short description of the error kind, for diagnostics.
    pub fn kind_name(&self) -> (r: String)
        ensures
            r@ == self.spec_kind_name(),
    {
        match self {
            Error::ReceiveError(_) => "receive error".to_owned(),
            Error::SendError(_) => "send error".to_owned(),
            Error::EncodingError(_) => "encoding error".to_owned(),
            Error::RegistrationFailure(_) => "registration failure".to_owned(),
            Error::UnexpectedMessageType(_) => "unexpected message type".to_owned(),
        }
    }

    /// What `kind_name` returns, as a sequence of characters.
    pub open spec fn spec_kind_name(&self) -> Seq<char> {
        match self {
            Error::ReceiveError(_) => "receive error"@,
            Error::SendError(_) => "send error"@,
            Error::EncodingError(_) => "encoding error"@,
            Error::RegistrationFailure(_) => "registration failure"@,
            Error::UnexpectedMessageType(_) => "unexpected message type"@,
        }
    }
}

} // verus!
