//! Declarations of the outside types the client carries, and the trusted
//! wrappers around the few outside calls its logic makes.  Everything else
//! in the crate is verified against the contracts stated here.

use crate::client::is_token_char;
use crate::command::Command;
use crate::command::FlushResult;
use crate::message::Message;
use vstd::prelude::*;

verus! {

#[verifier::external_type_specification]
#[verifier::external_body]
pub struct ExBytes(bytes::Bytes);

#[verifier::external_type_specification]
#[verifier::external_body]
#[verifier::reject_recursive_types(T)]
pub struct ExUnboundedSender<T>(tokio::sync::mpsc::UnboundedSender<T>);

#[verifier::external_type_specification]
#[verifier::external_body]
#[verifier::reject_recursive_types(T)]
pub struct ExSender<T>(tokio::sync::mpsc::Sender<T>);

#[verifier::external_type_specification]
#[verifier::external_body]
#[verifier::reject_recursive_types(T)]
pub struct ExReceiver<T>(tokio::sync::mpsc::Receiver<T>);

#[verifier::external_type_specification]
#[verifier::external_body]
#[verifier::reject_recursive_types(T)]
pub struct ExOneshotSender<T>(tokio::sync::oneshot::Sender<T>);

#[verifier::external_type_specification]
#[verifier::external_body]
#[verifier::reject_recursive_types(T)]
pub struct ExOneshotReceiver<T>(tokio::sync::oneshot::Receiver<T>);

#[verifier::external_type_specification]
#[verifier::external_body]
pub struct ExOneshotRecvError(tokio::sync::oneshot::error::RecvError);

/// Relies on tokio's UnboundedSender::clone: the clone feeds the same
/// channel as the original.  Nothing is stated of the returned handle.
pub assume_specification<T>[ <tokio::sync::mpsc::UnboundedSender<T> as Clone>::clone ](
    sender: &tokio::sync::mpsc::UnboundedSender<T>,
) -> tokio::sync::mpsc::UnboundedSender<T>;

/// Relies on std's Arc::clone: the clone is a handle to the very same
/// shared allocation, so in vstd's model of `Arc` (which identifies a
/// handle with the shared value) it equals the original.
#[verifier::external_body]
pub(crate) fn clone_counter(c: &std::sync::Arc<std::sync::atomic::AtomicU64>) -> (r: std::sync::Arc<
    std::sync::atomic::AtomicU64,
>)
    ensures
        r == *c,
{
    std::sync::Arc::clone(c)
}

/// Relies on nuid::next: a freshly generated token of exactly 22
/// characters drawn from the base-62 alphabet of ASCII digits and
/// letters.  Which token comes back depends on process-global generator
/// state, so nothing more is stated.
#[verifier::external_body]
pub(crate) fn fresh_token() -> (r: String)
    ensures
        r@.len() == 22,
        forall|i: int| 0 <= i < r@.len() ==> is_token_char(r@[i]),
{
    nuid::next().as_str().to_string()
}

/// Relies on tokio's UnboundedSender::send: the message is queued in send
/// order unless the receiving half has been dropped, in which case the
/// very message comes back inside the error.
#[verifier::external_body]
pub(crate) fn send_command(
    sender: &tokio::sync::mpsc::UnboundedSender<Command>,
    cmd: Command,
) -> (r: Result<(), Command>)
    ensures
        (r matches Err(c) ==> c == cmd),
{
    match sender.send(cmd) {
        Ok(()) => Ok(()),
        Err(tokio::sync::mpsc::error::SendError(c)) => Err(c),
    }
}

/// Relies on tokio's mpsc::channel: a fresh bounded queue whose two
/// endpoints are connected to each other and to nothing else.  tokio
/// panics on a zero capacity, and its semaphore refuses permit counts
/// above `usize::MAX >> 3`, so both extremes are excluded.
#[verifier::external_body]
pub(crate) fn new_message_channel(capacity: usize) -> (
    tokio::sync::mpsc::Sender<Message>,
    tokio::sync::mpsc::Receiver<Message>,
)
    requires
        1 <= capacity <= crate::client::MAX_SUBSCRIPTION_CAPACITY,
{
    tokio::sync::mpsc::channel(capacity)
}

/// Relies on tokio's oneshot::channel: a fresh one-shot signal whose two
/// endpoints are connected to each other and to nothing else.
#[verifier::external_body]
pub(crate) fn new_flush_channel() -> (
    tokio::sync::oneshot::Sender<FlushResult>,
    tokio::sync::oneshot::Receiver<FlushResult>,
) {
    tokio::sync::oneshot::channel()
}

/// Relies on tokio's oneshot::Receiver::blocking_recv: the value the
/// sender fulfilled the signal with, or nothing if the sender was dropped
/// unfulfilled.  Blocks the calling thread; tokio panics if that thread
/// drives an async runtime, so callers embedded in one must wait on the
/// receiver themselves instead of using the blocking client.
#[verifier::external_body]
pub(crate) fn flush_wait(rx: tokio::sync::oneshot::Receiver<FlushResult>) -> Option<FlushResult> {
    match rx.blocking_recv() {
        Ok(v) => Some(v),
        Err(_) => None,
    }
}

/// Relies on tokio's mpsc::Receiver::blocking_recv: the next queued
/// message, or nothing once the queue is closed and drained.  Blocks the
/// calling thread; tokio panics if that thread drives an async runtime,
/// so callers embedded in one must consume the receiver themselves.
#[verifier::external_body]
pub(crate) fn recv_message(rx: &mut tokio::sync::mpsc::Receiver<Message>) -> Option<Message> {
    rx.blocking_recv()
}

} // verus!
