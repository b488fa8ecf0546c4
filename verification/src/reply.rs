use crate::errors::MsgBusError;
use tokio::sync::mpsc::error::SendError;
use tokio::sync::oneshot::error::RecvError;
use tokio::time::error::Elapsed;
use vstd::prelude::*;

verus! {

/// The error `tokio::time::timeout` reports when the deadline passed first.
#[verifier::external_type_specification]
#[verifier::external_body]
pub struct ExElapsed(Elapsed);

/// How an RPC request fared when the bus tried to pass it on.
pub enum RpcRoute<R> {
    /// No listener is registered under the destination.
    NoListener,
    /// The listener took the request; `R` is the port its answer comes back on.
    Delivered(R),
    /// A listener is registered, but it could not take the request.
    Undelivered,
}

/// The bus's answer for each way an RPC request can fare.
pub open spec fn response_for<R>(route: RpcRoute<R>) -> Result<R, MsgBusError> {
    match route {
        RpcRoute::NoListener => Err(MsgBusError::UnknownRecipient),
        RpcRoute::Delivered(port) => Ok(port),
        RpcRoute::Undelivered => Err(MsgBusError::MsgBusClosed),
    }
}

/// What the caller of an RPC makes of the bus's answer, or of its absence.
pub open spec fn result_of_reply<R>(reply: Result<Result<R, MsgBusError>, RecvError>) -> Result<R, MsgBusError> {
    match reply {
        Err(_) => Err(MsgBusError::MsgBusClosed),
        Ok(Err(e)) => Err(e),
        Ok(Ok(port)) => Ok(port),
    }
}

/// What the caller of an RPC makes of the listener's answer, or of its absence.
pub open spec fn result_of_answer<M>(answer: Result<M, RecvError>) -> Result<M, MsgBusError> {
    match answer {
        Err(_) => Err(MsgBusError::MsgBusClosed),
        Ok(m) => Ok(m),
    }
}

/// What an RPC with a deadline returns: the RPC's own result if it finished
/// in time, a timeout otherwise.
pub open spec fn result_within_deadline<M>(
    outcome: Result<Result<M, MsgBusError>, Elapsed>,
) -> Result<M, MsgBusError> {
    match outcome {
        Ok(r) => r,
        Err(_) => Err(MsgBusError::MsgBusTimeout),
    }
}

/// The bus's answer to an RPC request, given how passing it on went: the
/// port on which the listener's answer will arrive, or the reason no answer
/// will come.
pub fn rpc_response<R>(route: RpcRoute<R>) -> (resp: Result<R, MsgBusError>)
    ensures
        resp == response_for(route),
        route is NoListener ==> resp == Err::<R, MsgBusError>(MsgBusError::UnknownRecipient),
        route is Undelivered ==> resp == Err::<R, MsgBusError>(MsgBusError::MsgBusClosed),
        route is Delivered ==> resp == Ok::<R, MsgBusError>(route->Delivered_0),
{
    match route {
        RpcRoute::NoListener => Err(MsgBusError::UnknownRecipient),
        RpcRoute::Delivered(port) => Ok(port),
        RpcRoute::Undelivered => Err(MsgBusError::MsgBusClosed),
    }
}

/// The result of handing a request to the bus: it fails only when the bus
/// no longer takes requests.
pub fn request_result<T>(sent: Result<(), SendError<T>>) -> (r: Result<(), MsgBusError>)
    ensures
        r == (match sent {
            Ok(()) => Ok(()),
            Err(_) => Err(MsgBusError::MsgBusClosed),
        }),
{
    match sent {
        Ok(()) => Ok(()),
        Err(e) => Err(MsgBusError::from(e)),
    }
}

/// The caller's view of the bus's answer to an RPC request.
pub fn rpc_result<R>(reply: Result<Result<R, MsgBusError>, RecvError>) -> (r: Result<R, MsgBusError>)
    ensures
        r == result_of_reply(reply),
        reply is Err ==> r == Err::<R, MsgBusError>(MsgBusError::MsgBusClosed),
        reply is Ok ==> r == reply->Ok_0,
{
    match reply {
        Err(e) => Err(MsgBusError::from(e)),
        Ok(Err(e)) => Err(e),
        Ok(Ok(port)) => Ok(port),
    }
}

/// The caller's view of the listener's answer to an RPC.
pub fn rpc_answer<M>(answer: Result<M, RecvError>) -> (r: Result<M, MsgBusError>)
    ensures
        r == result_of_answer(answer),
        answer is Err ==> r == Err::<M, MsgBusError>(MsgBusError::MsgBusClosed),
        answer is Ok ==> r == Ok::<M, MsgBusError>(answer->Ok_0),
{
    match answer {
        Err(e) => Err(MsgBusError::from(e)),
        Ok(m) => Ok(m),
    }
}

/// The result of an RPC raced against a deadline.
pub fn rpc_within_deadline<M>(outcome: Result<Result<M, MsgBusError>, Elapsed>) -> (r: Result<
    M,
    MsgBusError,
>)
    ensures
        r == result_within_deadline(outcome),
        outcome is Err ==> r == Err::<M, MsgBusError>(MsgBusError::MsgBusTimeout),
        outcome is Ok ==> r == outcome->Ok_0,
{
    match outcome {
        Ok(r) => r,
        Err(_) => Err(MsgBusError::MsgBusTimeout),
    }
}

} // verus!
