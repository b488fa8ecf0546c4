use crate::errors::MsgBusError;
use crate::registry::{after_broadcast, after_delivery, registered, route, undelivered, unregistered};
use crate::reply::{
    response_for, result_of_answer, result_of_reply, result_within_deadline, RpcRoute,
};
use tokio::sync::mpsc::error::SendError;
use tokio::sync::oneshot::error::RecvError;
use vstd::std_specs::convert::FromSpec;
use tokio::time::error::Elapsed;
use vstd::prelude::*;

verus! {

/// One change the bus makes to its routing table.
pub enum Change<H, L> {
    Register(H, L),
    Unregister(H),
    /// A direct message to the key was, or was not, taken by its listener.
    Delivery(H, bool),
    /// A broadcast with these delivery outcomes.
    Broadcast(Seq<(H, bool)>),
    /// The bus shut down.
    Clear,
}

/// The table after one change.
pub open spec fn apply<H, L>(table: Map<H, L>, change: Change<H, L>) -> Map<H, L> {
    match change {
        Change::Register(k, l) => registered(table, k, l),
        Change::Unregister(k) => unregistered(table, k),
        Change::Delivery(k, delivered) => after_delivery(table, k, delivered),
        Change::Broadcast(outcomes) => after_broadcast(table, outcomes),
        Change::Clear => Map::empty(),
    }
}

/// The table after a sequence of changes, in order.
pub open spec fn replay<H, L>(table: Map<H, L>, changes: Seq<Change<H, L>>) -> Map<H, L>
    decreases changes.len(),
{
    if changes.len() == 0 {
        table
    } else {
        apply(replay(table, changes.drop_last()), changes.last())
    }
}

/// Where `key` leads according to the last change that concerns it: the
/// listener of its latest registration, nothing if it was since unregistered,
/// dropped after a failed delivery or cleared by a shutdown, and where it led
/// at the start if no change concerns it.
pub open spec fn latest_route<H, L>(table: Map<H, L>, changes: Seq<Change<H, L>>, key: H) -> Option<L>
    decreases changes.len(),
{
    if changes.len() == 0 {
        route(table, key)
    } else {
        let earlier = latest_route(table, changes.drop_last(), key);
        match changes.last() {
            Change::Register(k, l) => if k == key { Some(l) } else { earlier },
            Change::Unregister(k) => if k == key { None } else { earlier },
            Change::Delivery(k, delivered) => if k == key && !delivered { None } else { earlier },
            Change::Broadcast(outcomes) => if undelivered(outcomes).contains(key) { None } else { earlier },
            Change::Clear => None,
        }
    }
}

/// Routing law: after any sequence of changes, a message addressed to a key
/// reaches exactly the listener that the last change concerning that key
/// left there: the most recent registration wins, and unregistering, a
/// failed delivery or a shutdown leaves the key without a listener.
pub proof fn lemma_route_follows_latest_change<H, L>(table: Map<H, L>, changes: Seq<Change<H, L>>, key: H)
    ensures
        route(replay(table, changes), key) == latest_route(table, changes, key),
    decreases changes.len(),
{
    if changes.len() > 0 {
        lemma_route_follows_latest_change(table, changes.drop_last(), key);
    }
}

/// A message sent to a key just registered reaches that listener, and
/// registering one key changes where no other key leads.
pub proof fn lemma_route_after_register<H, L>(table: Map<H, L>, key: H, listener: L, other: H)
    requires
        other != key,
    ensures
        route(registered(table, key, listener), key) == Some(listener),
        route(registered(table, key, listener), other) == route(table, other),
{
}

/// Registering under a key that is taken replaces the earlier listener.
pub proof fn lemma_register_replaces<H, L>(table: Map<H, L>, key: H, first: L, second: L)
    ensures
        registered(registered(table, key, first), key, second) == registered(table, key, second),
{
    assert(registered(registered(table, key, first), key, second) =~= registered(table, key, second));
}

/// After unregistering a key nothing addressed to it is delivered, and no
/// other key is affected.
pub proof fn lemma_route_after_unregister<H, L>(table: Map<H, L>, key: H, other: H)
    requires
        other != key,
    ensures
        route(unregistered(table, key), key) == None::<L>,
        route(unregistered(table, key), other) == route(table, other),
{
}

/// Unregistering a key that was free before it was registered restores the
/// table.
pub proof fn lemma_unregister_undoes_register<H, L>(table: Map<H, L>, key: H, listener: L)
    requires
        !table.contains_key(key),
    ensures
        unregistered(registered(table, key, listener), key) == table,
{
    assert(unregistered(registered(table, key, listener), key) =~= table);
}

/// Unregistering a key that is not registered changes nothing.
pub proof fn lemma_unregister_unknown_is_harmless<H, L>(table: Map<H, L>, key: H)
    requires
        !table.contains_key(key),
    ensures
        unregistered(table, key) == table,
{
    assert(unregistered(table, key) =~= table);
}

/// A listener that took its direct message stays registered; one that could
/// not take it is dropped, and nobody else is.
pub proof fn lemma_delivery_keeps_live_listeners<H, L>(table: Map<H, L>, key: H, other: H)
    requires
        other != key,
    ensures
        after_delivery(table, key, true) == table,
        route(after_delivery(table, key, false), key) == None::<L>,
        route(after_delivery(table, key, false), other) == route(table, other),
{
}

/// After a broadcast a key keeps its listener unless that listener could not
/// take the broadcast.
pub proof fn lemma_broadcast_drops_only_failed<H, L>(table: Map<H, L>, outcomes: Seq<(H, bool)>, key: H)
    ensures
        route(after_broadcast(table, outcomes), key) == (if undelivered(outcomes).contains(key) {
            None
        } else {
            route(table, key)
        }),
{
}

/// An RPC to a destination with no listener fails with `UnknownRecipient`;
/// one whose listener took it yields the port the answer arrives on; one
/// whose listener could not take it fails with `MsgBusClosed`.
pub proof fn lemma_rpc_reply_by_route<R>(route_taken: RpcRoute<R>)
    ensures
        result_of_reply(Ok::<Result<R, MsgBusError>, RecvError>(response_for(route_taken))) == (
        match route_taken {
            RpcRoute::NoListener => Err(MsgBusError::UnknownRecipient),
            RpcRoute::Delivered(port) => Ok(port),
            RpcRoute::Undelivered => Err(MsgBusError::MsgBusClosed),
        }),
{
}

/// An RPC without a deadline never reports a timeout: whatever happens on
/// the way, its result is the answer or one of the other errors.
pub proof fn lemma_rpc_without_deadline_never_times_out<R>(
    route_taken: RpcRoute<R>,
    answer: Result<R, RecvError>,
)
    ensures
        result_of_reply(Ok::<Result<R, MsgBusError>, RecvError>(response_for(route_taken)))
            != Err::<R, MsgBusError>(MsgBusError::MsgBusTimeout),
        result_of_answer(answer) != Err::<R, MsgBusError>(MsgBusError::MsgBusTimeout),
{
}

/// A vanished bus or a vanished listener always shows as `MsgBusClosed`.
pub proof fn lemma_lost_replies_mean_closed<R>(e: RecvError)
    ensures
        result_of_reply(Err::<Result<R, MsgBusError>, RecvError>(e)) == Err::<R, MsgBusError>(
            MsgBusError::MsgBusClosed,
        ),
        result_of_answer(Err::<R, RecvError>(e)) == Err::<R, MsgBusError>(MsgBusError::MsgBusClosed),
{
}

/// An RPC raced against a deadline returns its own result when it finishes
/// in time and `MsgBusTimeout` when the deadline passes first.
pub proof fn lemma_deadline<M>(r: Result<M, MsgBusError>, e: Elapsed)
    ensures
        result_within_deadline(Ok::<Result<M, MsgBusError>, Elapsed>(r)) == r,
        result_within_deadline(Err::<Result<M, MsgBusError>, Elapsed>(e)) == Err::<M, MsgBusError>(
            MsgBusError::MsgBusTimeout,
        ),
{
}


/// Broadcast law: after a broadcast, a key keeps its listener exactly when it
/// had one before and no outcome in the list reports a failed delivery to
/// it; every failed key is dropped, wherever it stands in the list and
/// however many failures come before it, and survivors keep their listener.
pub proof fn lemma_broadcast_drops_every_failed<H, L>(table: Map<H, L>, outcomes: Seq<(H, bool)>, key: H)
    ensures
        after_broadcast(table, outcomes).contains_key(key) <==> (table.contains_key(key)
            && !(exists|i: int| 0 <= i < outcomes.len() && outcomes[i].0 == key && !outcomes[i].1)),
        after_broadcast(table, outcomes).contains_key(key) ==> after_broadcast(table, outcomes)[key]
            == table[key],
{
}

/// RPC answer law: whatever value the listener answers with, of any type,
/// the caller's RPC returns exactly that value.
pub proof fn lemma_answer_reaches_caller<M>(m: M)
    ensures
        result_of_answer(Ok::<M, RecvError>(m)) == Ok::<M, MsgBusError>(m),
{
}

/// RPC reply law: the bus's answer reaches the caller unchanged, be it the
/// port to wait on or the error the bus decided.
pub proof fn lemma_reply_reaches_caller<R>(port: R, e: MsgBusError)
    ensures
        result_of_reply(Ok::<Result<R, MsgBusError>, RecvError>(Ok(port))) == Ok::<R, MsgBusError>(port),
        result_of_reply(Ok::<Result<R, MsgBusError>, RecvError>(Err(e))) == Err::<R, MsgBusError>(e),
{
}

/// RPC round trip: when the listener takes the request and answers `m`, the
/// caller gets the port from the bus and then `Ok(m)` from the listener.
pub proof fn lemma_rpc_round_trip<R, M>(port: R, m: M)
    ensures
        result_of_reply(Ok::<Result<R, MsgBusError>, RecvError>(response_for(RpcRoute::Delivered(port))))
            == Ok::<R, MsgBusError>(port),
        result_of_answer(Ok::<M, RecvError>(m)) == Ok::<M, MsgBusError>(m),
{
}

/// Conversion law: a channel failure of either kind, a request that could
/// not be queued or a reply that never came, becomes `MsgBusClosed`.
pub proof fn lemma_channel_errors_mean_closed<T>(r: RecvError, s: SendError<T>)
    ensures
        <MsgBusError as FromSpec<RecvError>>::obeys_from_spec(),
        <MsgBusError as FromSpec<RecvError>>::from_spec(r) == MsgBusError::MsgBusClosed,
        <MsgBusError as FromSpec<SendError<T>>>::obeys_from_spec(),
        <MsgBusError as FromSpec<SendError<T>>>::from_spec(s) == MsgBusError::MsgBusClosed,
{
}

} // verus!
