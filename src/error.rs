use vstd::prelude::*;

verus! {

/// Why an operation failed.
pub enum Error {
    /// The host refused the call for a reason of its own.
    InvalidConnection,
    /// A statement, a reflection query or reading a row failed; the message
    /// describes the engine's error.
    OperationFailed { message: String },
}

/// The reason the host gives for refusing a call.
#[derive(PartialEq, Eq, Structural, Clone, Copy, Debug)]
pub enum Rejection {
    NoError,
    SysFatal,
    SysTransient,
    DestinationInvalid,
    CanisterReject,
    CanisterError,
    Unknown,
}

impl Error {
    /// The error for a refusal by the host: a failure of the callee carries
    /// its message, any other reason means the connection cannot be used.
    pub fn from_rejection(code: Rejection, message: String) -> (r: Error)
        ensures
            code == Rejection::CanisterError ==> r == (Error::OperationFailed { message }),
            code != Rejection::CanisterError ==> r == Error::InvalidConnection,
    {
        match code {
            Rejection::CanisterError => Error::OperationFailed { message },
            _ => Error::InvalidConnection,
        }
    }

    /// Whether this is an `OperationFailed` with a non-empty message.
    pub open spec fn is_described_failure(&self) -> bool {
        match self {
            Error::OperationFailed { message } => message@.len() > 0,
            _ => false,
        }
    }

    /// The message of a failure, empty for a refused connection.
    pub fn message(&self) -> (r: String)
        ensures
            match self {
                Error::OperationFailed { message } => r@ == message@,
                Error::InvalidConnection => r@.len() == 0,
            },
    {
        match self {
            Error::OperationFailed { message } => message.clone(),
            Error::InvalidConnection => String::new(),
        }
    }
}

} // verus!
