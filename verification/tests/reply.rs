use msgbus::reply::{request_result, rpc_answer, rpc_response, rpc_result, rpc_within_deadline, RpcRoute};
use msgbus::MsgBusError;
use std::time::Duration;
use tokio::sync::mpsc::error::SendError;
use tokio::sync::oneshot;
use tokio::sync::oneshot::error::RecvError;

fn recv_error() -> RecvError {
    let (tx, rx) = oneshot::channel::<u32>();
    drop(tx);
    rx.blocking_recv().unwrap_err()
}

#[test]
fn rpc_to_unknown_destination_is_unknown_recipient() {
    let resp = rpc_response::<u32>(RpcRoute::NoListener);
    assert_eq!(resp, Err(MsgBusError::UnknownRecipient));
    assert_eq!(rpc_result(Ok(resp)), Err(MsgBusError::UnknownRecipient));
}

#[test]
fn rpc_delivered_yields_port() {
    let resp = rpc_response(RpcRoute::Delivered(42u32));
    assert_eq!(resp, Ok(42));
    assert_eq!(rpc_result(Ok(resp)), Ok(42));
}

#[test]
fn rpc_undelivered_is_closed() {
    let resp = rpc_response::<u32>(RpcRoute::Undelivered);
    assert_eq!(resp, Err(MsgBusError::MsgBusClosed));
    assert_eq!(rpc_result(Ok(resp)), Err(MsgBusError::MsgBusClosed));
}

#[test]
fn lost_bus_reply_is_closed() {
    assert_eq!(rpc_result::<u32>(Err(recv_error())), Err(MsgBusError::MsgBusClosed));
}

#[test]
fn listener_answer_passes_through() {
    assert_eq!(rpc_answer(Ok(489usize)), Ok(489));
    assert_eq!(rpc_answer::<usize>(Err(recv_error())), Err(MsgBusError::MsgBusClosed));
}

#[test]
fn real_answer_from_channel() {
    let (tx, rx) = oneshot::channel::<usize>();
    tx.send(420 + 69).unwrap();
    assert_eq!(rpc_answer(rx.blocking_recv()), Ok(489));
}

#[test]
fn request_to_closed_bus_fails() {
    assert_eq!(request_result::<u32>(Ok(())), Ok(()));
    assert_eq!(request_result(Err(SendError(1234u32))), Err(MsgBusError::MsgBusClosed));
}

#[test]
fn request_to_dropped_channel_fails() {
    let (tx, rx) = tokio::sync::mpsc::channel::<u32>(1);
    drop(rx);
    assert_eq!(request_result(tx.blocking_send(5)), Err(MsgBusError::MsgBusClosed));
}

#[test]
fn rpc_past_deadline_times_out() {
    let rt = tokio::runtime::Builder::new_current_thread().enable_time().build().unwrap();
    let outcome = rt.block_on(async {
        tokio::time::timeout(Duration::from_millis(10), std::future::pending::<Result<usize, MsgBusError>>())
            .await
    });
    assert_eq!(rpc_within_deadline(outcome), Err(MsgBusError::MsgBusTimeout));
}

#[test]
fn rpc_within_deadline_keeps_result() {
    let rt = tokio::runtime::Builder::new_current_thread().enable_time().build().unwrap();
    let ok = rt.block_on(async {
        tokio::time::timeout(Duration::from_millis(1000), async { Ok::<usize, MsgBusError>(7) }).await
    });
    assert_eq!(rpc_within_deadline(ok), Ok(7));
    let err = rt.block_on(async {
        tokio::time::timeout(Duration::from_millis(1000), async {
            Err::<usize, MsgBusError>(MsgBusError::UnknownRecipient)
        })
        .await
    });
    assert_eq!(rpc_within_deadline(err), Err(MsgBusError::UnknownRecipient));
}
