//! The event bus and the clock: broadcast channels with bounded backlog
//! fanning records out to subscribers, and the wall-clock timestamp used
//! on records. Publishers never block; late subscribers do not see
//! historical records.

use vstd::prelude::*;

verus! {

#[verifier::external_type_specification]
#[verifier::external_body]
#[verifier::reject_recursive_types(T)]
pub struct ExBroadcastSender<T>(tokio::sync::broadcast::Sender<T>);

#[verifier::external_type_specification]
#[verifier::external_body]
#[verifier::reject_recursive_types(T)]
pub struct ExBroadcastReceiver<T>(tokio::sync::broadcast::Receiver<T>);

/// Relies on tokio::sync::broadcast::channel: a broadcast channel whose
/// send never blocks; panics on a zero or oversized capacity, which the
/// precondition rules out.
#[verifier::external_body]
pub(crate) fn broadcast_channel<T: Clone>(capacity: usize) -> (r: (
    tokio::sync::broadcast::Sender<T>,
    tokio::sync::broadcast::Receiver<T>,
))
    requires
        0 < capacity < usize::MAX / 2,
{
    tokio::sync::broadcast::channel(capacity)
}

/// Relies on tokio::sync::broadcast::Sender::send: hands the value to
/// current subscribers without blocking; the result (how many received
/// it) carries no guarantee the coordinator needs.
#[verifier::external_body]
pub(crate) fn broadcast_send<T: Clone>(sender: &tokio::sync::broadcast::Sender<T>, value: T) {
    let _ = sender.send(value);
}

/// Relies on tokio::sync::broadcast::Sender::subscribe: a fresh receiver
/// that observes records sent after this call.
#[verifier::external_body]
pub(crate) fn broadcast_subscribe<T: Clone>(sender: &tokio::sync::broadcast::Sender<T>) -> (r:
    tokio::sync::broadcast::Receiver<T>) {
    sender.subscribe()
}

/// Relies on std::time::SystemTime::now: the current wall-clock time in
/// seconds since the Unix epoch, and zero where the clock reads before
/// it; total on every host, and nothing more is assumed of the value.
#[verifier::external_body]
pub(crate) fn now_timestamp() -> u64 {
    match std::time::SystemTime::now().duration_since(std::time::UNIX_EPOCH) {
        Ok(elapsed) => elapsed.as_secs(),
        Err(_) => 0,
    }
}

} // verus!
