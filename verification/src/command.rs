use crate::header::HeaderMap;
use crate::message::Message;
use bytes::Bytes;
use vstd::prelude::*;

verus! {

/// What a flush's completion signal is fulfilled with: success, or the
/// reason the worker failed to forward the queued commands.
pub type FlushResult = Result<(), String>;

/// One command queued on the shared channel toward the worker that owns
/// the connection.  Commands are immutable once constructed; the worker
/// observes them in the order they entered the channel.
#[derive(Debug)]
pub enum Command {
    /// Publish `payload` on `subject`; a responder may answer on the
    /// `respond` subject if one is set.
    Publish {
        subject: String,
        payload: Bytes,
        respond: Option<String>,
        headers: Option<HeaderMap>,
    },
    /// Open subscription `sid` on `subject`; the worker delivers matching
    /// messages through `sender` into the subscription's bounded queue.
    Subscribe {
        sid: u64,
        subject: String,
        queue_group: Option<String>,
        sender: tokio::sync::mpsc::Sender<Message>,
    },
    /// Stop delivering to subscription `sid`.
    Unsubscribe { sid: u64 },
    /// Fulfill `result` once every command queued before this one has
    /// been forwarded to the connection.
    Flush { result: tokio::sync::oneshot::Sender<FlushResult> },
}

impl Command {
    /// The publish command exactly as the client's publish and request
    /// operations queue it: nothing is added, dropped or reordered
    /// between the caller's arguments and the worker's view.
    pub fn publish(
        subject: String,
        payload: Bytes,
        respond: Option<String>,
        headers: Option<HeaderMap>,
    ) -> (c: Command)
        ensures
            c == (Command::Publish { subject, payload, respond, headers }),
    {
        Command::Publish { subject, payload, respond, headers }
    }

    /// The subscribe command exactly as the client queues it, carrying
    /// the drawn id, the subject, the optional queue group and the fresh
    /// delivery queue's producer endpoint.
    pub fn subscribe(
        sid: u64,
        subject: String,
        queue_group: Option<String>,
        sender: tokio::sync::mpsc::Sender<Message>,
    ) -> (c: Command)
        ensures
            c == (Command::Subscribe { sid, subject, queue_group, sender }),
    {
        Command::Subscribe { sid, subject, queue_group, sender }
    }

    /// The unsubscribe command exactly as a subscriber queues it.
    pub fn unsubscribe(sid: u64) -> (c: Command)
        ensures
            c == (Command::Unsubscribe { sid }),
    {
        Command::Unsubscribe { sid }
    }

    /// The flush command exactly as the client queues it, carrying the
    /// completion signal's fulfilling end.
    pub fn flush(result: tokio::sync::oneshot::Sender<FlushResult>) -> (c: Command)
        ensures
            c == (Command::Flush { result }),
    {
        Command::Flush { result }
    }
}

} // verus!
