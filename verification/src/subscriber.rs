use crate::command::Command;
use crate::error::ClientError;
use crate::ext;
use crate::message::Message;
use vstd::prelude::*;

verus! {

/// The consumer side of one subscription: its id, an endpoint on the
/// shared command channel for cancelling it, and the bounded delivery
/// queue that the worker feeds.  The owner of a `Subscriber` is the sole
/// consumer of that queue.
#[derive(Debug)]
pub struct Subscriber {
    sid: u64,
    sender: tokio::sync::mpsc::UnboundedSender<Command>,
    receiver: tokio::sync::mpsc::Receiver<Message>,
}

impl Subscriber {
    /// The id this subscription was created under.
    pub closed spec fn sid_spec(self) -> u64 {
        self.sid
    }

    pub(crate) fn new(
        sid: u64,
        sender: tokio::sync::mpsc::UnboundedSender<Command>,
        receiver: tokio::sync::mpsc::Receiver<Message>,
    ) -> (s: Subscriber)
        ensures
            s.sid_spec() == sid,
    {
        Subscriber { sid, sender, receiver }
    }

    pub fn sid(&self) -> (r: u64)
        ensures
            r == self.sid_spec(),
    {
        self.sid
    }

    /// Wait for the next delivered message.  Returns nothing once the
    /// delivery queue has been closed and drained: termination of the
    /// subscription is not an error, it ends the sequence of messages.
    pub fn next_blocking(&mut self) -> (r: Option<Message>)
        ensures
            final(self).sid_spec() == old(self).sid_spec(),
    {
        ext::recv_message(&mut self.receiver)
    }

    /// Queue a command asking the worker to stop delivering to this
    /// subscription.  Dropping the `Subscriber` afterwards closes the
    /// delivery queue, so nothing delivered later can be observed.
    pub fn unsubscribe(&self) -> (r: Result<(), ClientError>)
        ensures
            (r matches Err(e) ==> e is ChannelClosed),
    {
        match ext::send_command(&self.sender, Command::unsubscribe(self.sid)) {
            Ok(()) => Ok(()),
            Err(_) => Err(ClientError::ChannelClosed),
        }
    }
}

} // verus!
