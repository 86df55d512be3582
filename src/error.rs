//! The errors of calls and of settings.
use vstd::prelude::*;

verus! {

/// What can go wrong in a call, or in reading a setting.
#[derive(Clone, PartialEq, Eq, Debug)]
pub enum IpcError {
    /// A malformed frame, a non-positive length or an undecodable header.
    Protocol,
    /// A response frame longer than the configured maximum.
    ResponseTooLarge,
    /// The transport failed, or the connection was closed under the call.
    Connection,
    /// The authentication handshake failed.
    Auth,
    /// The server answered with a status other than success.
    Remote { exception_class: Vec<u8>, message: Vec<u8> },
    /// A message body could not be decoded.
    Decode,
    /// A numeric setting holds text that is not a number.
    NumberFormat,
    /// A filesystem URI that does not name a namenode.
    InvalidUri,
}

/// Two errors of the same variant with the same diagnostics.
pub open spec fn same_error(a: IpcError, b: IpcError) -> bool {
    match (a, b) {
        (
            IpcError::Remote { exception_class: c1, message: m1 },
            IpcError::Remote { exception_class: c2, message: m2 },
        ) => c1@ == c2@ && m1@ == m2@,
        _ => a == b,
    }
}

impl IpcError {
    /// Whether calling again might succeed: true of transport failures
    /// only.
    pub open spec fn spec_is_retriable(&self) -> bool {
        self is Connection
    }

    /// A copy of this error.
    pub fn clone_error(&self) -> (r: IpcError)
        ensures
            same_error(r, *self),
            !(*self is Remote) ==> r == *self,
    {
        match self {
            IpcError::Protocol => IpcError::Protocol,
            IpcError::ResponseTooLarge => IpcError::ResponseTooLarge,
            IpcError::Connection => IpcError::Connection,
            IpcError::Auth => IpcError::Auth,
            IpcError::Remote { exception_class, message } => IpcError::Remote {
                exception_class: exception_class.clone(),
                message: message.clone(),
            },
            IpcError::Decode => IpcError::Decode,
            IpcError::NumberFormat => IpcError::NumberFormat,
            IpcError::InvalidUri => IpcError::InvalidUri,
        }
    }

    pub fn is_retriable(&self) -> (r: bool)
        ensures
            r == self.spec_is_retriable(),
    {
        matches!(self, IpcError::Connection)
    }
}

} // verus!
