use vstd::prelude::*;
use vstd::std_specs::convert::FromSpecImpl;
use tokio::sync::mpsc::error::SendError;
use tokio::sync::oneshot::error::RecvError;

verus! {

/// Error returned when a request cannot be carried out by the bus.
#[derive(Debug, Clone, Copy, PartialEq, Eq, Structural)]
pub enum MsgBusError {
    /// The bus (or the channel a request travelled on) is shut down.
    MsgBusClosed,
    /// An RPC did not receive an answer within the allowed time.
    MsgBusTimeout,
    /// The destination of an RPC is not registered on the bus.
    UnknownRecipient,
}

/// The human-readable description of each error.
pub open spec fn error_text(e: MsgBusError) -> Seq<char> {
    match e {
        MsgBusError::MsgBusClosed => "MsgBus is shutdown"@,
        MsgBusError::UnknownRecipient => "Destination was not registered"@,
        MsgBusError::MsgBusTimeout => "RPC call timed out"@,
    }
}

impl MsgBusError {
    /// The text this error displays as.
    pub fn message(&self) -> (s: String)
        ensures
            s@ == error_text(*self),
            *self == MsgBusError::MsgBusClosed ==> s@ == "MsgBus is shutdown"@,
            *self == MsgBusError::UnknownRecipient ==> s@ == "Destination was not registered"@,
            *self == MsgBusError::MsgBusTimeout ==> s@ == "RPC call timed out"@,
    {
        match *self {
            MsgBusError::MsgBusClosed => "MsgBus is shutdown".to_owned(),
            MsgBusError::UnknownRecipient => "Destination was not registered".to_owned(),
            MsgBusError::MsgBusTimeout => "RPC call timed out".to_owned(),
        }
    }
}

/// The error a `tokio` oneshot receiver reports when its sender was
/// dropped without sending.
#[verifier::external_type_specification]
#[verifier::external_body]
pub struct ExRecvError(RecvError);

/// The error a `tokio` mpsc sender reports when the receiving side is
/// closed; it carries the value that could not be sent.
#[verifier::external_type_specification]
#[verifier::external_body]
#[verifier::reject_recursive_types(T)]
pub struct ExSendError<T>(SendError<T>);

/// A reply that never came means the bus went away.
impl From<RecvError> for MsgBusError {
    fn from(e: RecvError) -> (r: MsgBusError) {
        MsgBusError::MsgBusClosed
    }
}

impl FromSpecImpl<RecvError> for MsgBusError {
    open spec fn obeys_from_spec() -> bool {
        true
    }

    open spec fn from_spec(e: RecvError) -> MsgBusError {
        MsgBusError::MsgBusClosed
    }
}

/// A request that could not be queued means the bus went away.
impl<T> From<SendError<T>> for MsgBusError {
    fn from(e: SendError<T>) -> (r: MsgBusError) {
        MsgBusError::MsgBusClosed
    }
}

impl<T> FromSpecImpl<SendError<T>> for MsgBusError {
    open spec fn obeys_from_spec() -> bool {
        true
    }

    open spec fn from_spec(e: SendError<T>) -> MsgBusError {
        MsgBusError::MsgBusClosed
    }
}

} // verus!
