use crate::command::Command;
use crate::command::FlushResult;
use crate::error::ClientError;
use crate::ext;
use crate::header::HeaderMap;
use crate::message::Message;
use crate::subscriber::Subscriber;
use bytes::Bytes;
use std::sync::atomic::AtomicU64;
use std::sync::atomic::Ordering;
use std::sync::Arc;
use vstd::prelude::*;

verus! {

/// Holds of every character a fresh inbox token may carry.
pub open spec fn is_token_char(c: char) -> bool {
    ('0' <= c && c <= '9') || ('A' <= c && c <= 'Z') || ('a' <= c && c <= 'z')
}

/// The shape every subject returned by [`Client::new_inbox`] has: the
/// fixed namespace prefix followed by a 22-character token.
pub open spec fn is_inbox_subject(s: Seq<char>) -> bool {
    &&& s.len() == 29
    &&& s.subrange(0, 7) == "_INBOX."@
    &&& forall|i: int| 7 <= i < s.len() ==> is_token_char(s[i])
}

/// The largest delivery-queue capacity a subscription may be given.
/// tokio's bounded channel refuses permit counts above `usize::MAX >> 3`
/// in its semaphore; this bound stays within that limit on every
/// platform, 32-bit ones included.
pub const MAX_SUBSCRIPTION_CAPACITY: usize = 268435456;

/// The inbox subject built from one generator token: the fixed
/// namespace prefix followed by exactly that token.
pub fn inbox_subject(token: &str) -> (r: String)
    ensures
        r@ == "_INBOX."@ + token@,
{
    let prefix = String::from_str("_INBOX.");
    prefix.concat(token)
}

/// A cloneable handle to the connection.  All clones share the same
/// command channel and the same subscription-id counter, so ids issued
/// from any clone are drawn from one sequence, and all commands funnel
/// into the one channel the worker consumes in FIFO order.
#[derive(Debug)]
pub struct Client {
    sender: tokio::sync::mpsc::UnboundedSender<Command>,
    next_subscription_id: Arc<AtomicU64>,
    subscription_capacity: usize,
}

impl Clone for Client {
    /// Cloning is cheap: the clone shares the original's channel
    /// endpoint and id counter, and keeps its configured capacity, so
    /// ids issued through the clone come from the original's sequence.
    fn clone(&self) -> (c: Self)
        ensures
            c.capacity_spec() == self.capacity_spec(),
            c.counter_spec() == self.counter_spec(),
    {
        proof {
            use_type_invariant(&*self);
        }
        Client {
            sender: self.sender.clone(),
            next_subscription_id: ext::clone_counter(&self.next_subscription_id),
            subscription_capacity: self.subscription_capacity,
        }
    }
}

impl Client {
    #[verifier::type_invariant]
    spec fn wf(self) -> bool {
        1 <= self.subscription_capacity <= MAX_SUBSCRIPTION_CAPACITY
    }

    /// The delivery-queue capacity every subscription made through this
    /// handle gets.
    pub closed spec fn capacity_spec(self) -> usize {
        self.subscription_capacity
    }

    /// The producer endpoint this handle queues every command on.
    pub closed spec fn sender_spec(self) -> tokio::sync::mpsc::UnboundedSender<Command> {
        self.sender
    }

    /// The shared counter this handle draws subscription ids from.
    pub closed spec fn counter_spec(self) -> Arc<AtomicU64> {
        self.next_subscription_id
    }

    /// A handle over the producer side of the worker's command channel.
    /// The capacity bounds every subscription's delivery queue; it must
    /// be positive, since a zero-sized queue cannot be built, and it
    /// must stay under [`MAX_SUBSCRIPTION_CAPACITY`], the most tokio's
    /// queue accepts.
    pub fn new(sender: tokio::sync::mpsc::UnboundedSender<Command>, capacity: usize) -> (c:
        Client)
        requires
            1 <= capacity <= MAX_SUBSCRIPTION_CAPACITY,
        ensures
            c.capacity_spec() == capacity,
            c.sender_spec() == sender,
    {
        Client {
            sender,
            next_subscription_id: Arc::new(AtomicU64::new(0)),
            subscription_capacity: capacity,
        }
    }

    pub fn capacity(&self) -> (n: usize)
        ensures
            n == self.capacity_spec(),
    {
        self.subscription_capacity
    }

    /// Queue one command, mapping a refused send to the channel-closed
    /// error: the only way a send fails is the worker side being gone.
    fn send_cmd(&self, cmd: Command) -> (r: Result<(), ClientError>)
        ensures
            (r matches Err(e) ==> e is ChannelClosed),
    {
        match ext::send_command(&self.sender, cmd) {
            Ok(()) => Ok(()),
            Err(_) => Err(ClientError::ChannelClosed),
        }
    }

    /// Queue a publish of `payload` on `subject` with no reply subject.
    /// Success means the command was accepted into the channel, not that
    /// anything reached the network.
    pub fn publish(&self, subject: String, payload: Bytes) -> (r: Result<(), ClientError>)
        ensures
            (r matches Err(e) ==> e is ChannelClosed),
    {
        self.send_cmd(Command::publish(subject, payload, None, None))
    }

    pub fn publish_with_headers(&self, subject: String, headers: HeaderMap, payload: Bytes) -> (r:
        Result<(), ClientError>)
        ensures
            (r matches Err(e) ==> e is ChannelClosed),
    {
        self.send_cmd(Command::publish(subject, payload, None, Some(headers)))
    }

    /// Queue a publish carrying `reply` as the subject a responder should
    /// answer on.
    pub fn publish_with_reply(&self, subject: String, reply: String, payload: Bytes) -> (r: Result<
        (),
        ClientError,
    >)
        ensures
            (r matches Err(e) ==> e is ChannelClosed),
    {
        self.send_cmd(Command::publish(subject, payload, Some(reply), None))
    }

    pub fn publish_with_reply_and_headers(
        &self,
        subject: String,
        reply: String,
        headers: HeaderMap,
        payload: Bytes,
    ) -> (r: Result<(), ClientError>)
        ensures
            (r matches Err(e) ==> e is ChannelClosed),
    {
        self.send_cmd(Command::publish(subject, payload, Some(reply), Some(headers)))
    }

    /// A fresh, globally unique subject under the reserved inbox
    /// namespace, fit for use as a reply subject: the prefix followed by
    /// exactly the token the generator returned.
    pub fn new_inbox(&self) -> (r: String)
        ensures
            is_inbox_subject(r@),
    {
        let token = ext::fresh_token();
        let r = inbox_subject(token.as_str());
        proof {
            reveal_strlit("_INBOX.");
            assert(r@.subrange(0, 7) =~= "_INBOX."@);
            assert forall|i: int| 7 <= i < r@.len() implies is_token_char(r@[i]) by {
                assert(r@[i] == token@[i - 7]);
            }
        }
        r
    }

    /// Open a subscription on `subject`, outside any queue group.
    pub fn subscribe(&self, subject: String) -> (r: Result<Subscriber, ClientError>)
        ensures
            (r matches Err(e) ==> e is ChannelClosed),
    {
        self.subscribe_with_group(subject, None)
    }

    /// Open a subscription on `subject` as a member of `queue_group`.
    pub fn queue_subscribe(&self, subject: String, queue_group: String) -> (r: Result<
        Subscriber,
        ClientError,
    >)
        ensures
            (r matches Err(e) ==> e is ChannelClosed),
    {
        self.subscribe_with_group(subject, Some(queue_group))
    }

    /// Draw the next id from the shared counter, build the bounded
    /// delivery queue, and queue the subscribe command carrying the
    /// queue's producer endpoint.
    fn subscribe_with_group(&self, subject: String, queue_group: Option<String>) -> (r: Result<
        Subscriber,
        ClientError,
    >)
        ensures
            (r matches Err(e) ==> e is ChannelClosed),
    {
        proof {
            use_type_invariant(&*self);
        }
        let sid = self.next_subscription_id.fetch_add(1, Ordering::Relaxed);
        let (sender, receiver) = ext::new_message_channel(self.subscription_capacity);
        match self.send_cmd(Command::subscribe(sid, subject, queue_group, sender)) {
            Ok(()) => Ok(Subscriber::new(sid, self.sender.clone(), receiver)),
            Err(e) => Err(e),
        }
    }

    /// Queue a flush command and return the receiving end of its
    /// completion signal without waiting on it, for callers that must
    /// not block the current thread.
    pub fn flush_begin(&self) -> (r: Result<
        tokio::sync::oneshot::Receiver<FlushResult>,
        ClientError,
    >)
        ensures
            (r matches Err(e) ==> e is ChannelClosed),
    {
        let (tx, rx) = ext::new_flush_channel();
        match self.send_cmd(Command::flush(tx)) {
            Ok(()) => Ok(rx),
            Err(e) => Err(e),
        }
    }

    /// Queue a flush command and wait until the worker fulfills its
    /// completion signal, confirming that every command queued before
    /// this call has been forwarded.  The three ways this fails stay
    /// distinct: the command was not accepted, the signal was dropped,
    /// or the signal carried a failure.
    pub fn flush(&self) -> (r: Result<(), ClientError>)
        ensures
            (r matches Err(e) ==> e is ChannelClosed || e is FlushSignalDropped
                || e is FlushFailed),
    {
        match self.flush_begin() {
            Ok(rx) => flush_outcome(ext::flush_wait(rx)),
            Err(e) => Err(e),
        }
    }

    /// Correlated request/reply: subscribe to a fresh inbox, publish the
    /// request with the inbox as its reply subject, flush so both
    /// commands are on the wire before waiting, then classify the first
    /// delivery on the inbox.  The temporary subscription is cancelled
    /// whichever way the call resolves.
    pub fn request(&self, subject: String, payload: Bytes) -> (r: Result<Message, ClientError>)
        ensures
            (r matches Ok(m) ==> !m.is_no_responders_spec()),
    {
        self.request_inner(subject, None, payload)
    }

    pub fn request_with_headers(&self, subject: String, headers: HeaderMap, payload: Bytes) -> (r:
        Result<Message, ClientError>)
        ensures
            (r matches Ok(m) ==> !m.is_no_responders_spec()),
    {
        self.request_inner(subject, Some(headers), payload)
    }

    fn request_inner(&self, subject: String, headers: Option<HeaderMap>, payload: Bytes) -> (r:
        Result<Message, ClientError>)
        ensures
            (r matches Ok(m) ==> !m.is_no_responders_spec()),
    {
        let inbox = self.new_inbox();
        let reply_to = inbox.clone();
        let mut sub = match self.subscribe(inbox) {
            Ok(s) => s,
            Err(e) => {
                return Err(e);
            },
        };
        proof {
            // The published reply-to is the very subject just subscribed
            // to: the correlation that request/reply rests on.
            assert(reply_to@ == inbox@);
        }
        match self.send_cmd(Command::publish(subject, payload, Some(reply_to), headers)) {
            Ok(()) => {},
            Err(e) => {
                let _ = sub.unsubscribe();
                return Err(e);
            },
        }
        match self.flush() {
            Ok(()) => {},
            Err(e) => {
                let _ = sub.unsubscribe();
                return Err(e);
            },
        }
        let reply = sub.next_blocking();
        let _ = sub.unsubscribe();
        reply_outcome(reply)
    }
}

/// What a flush call returns for each way its completion signal can
/// resolve.
pub open spec fn flush_outcome_spec(w: Option<FlushResult>) -> Result<(), ClientError> {
    match w {
        None => Err(ClientError::FlushSignalDropped),
        Some(fr) => match fr {
            Ok(()) => Ok(()),
            Err(reason) => Err(ClientError::FlushFailed { reason }),
        },
    }
}

/// Classify how a flush's completion signal resolved: fulfilled with
/// success, fulfilled with a failure, or dropped unfulfilled.
pub fn flush_outcome(w: Option<FlushResult>) -> (r: Result<(), ClientError>)
    ensures
        r == flush_outcome_spec(w),
{
    match w {
        None => Err(ClientError::FlushSignalDropped),
        Some(fr) => match fr {
            Ok(()) => Ok(()),
            Err(reason) => Err(ClientError::FlushFailed { reason }),
        },
    }
}

/// What a request returns for each way the first delivery on its inbox
/// subscription can resolve.
pub open spec fn reply_outcome_spec(reply: Option<Message>) -> Result<Message, ClientError> {
    match reply {
        None => Err(ClientError::NoReply),
        Some(m) => if m.is_no_responders_spec() {
            Err(ClientError::NoResponders)
        } else {
            Ok(m)
        },
    }
}

/// Classify the first delivery on a request's inbox subscription: a
/// normal reply is handed back exactly as it arrived, the reserved "no
/// responders" status fails the request, and a queue that closed without
/// a message fails it differently.
pub fn reply_outcome(reply: Option<Message>) -> (r: Result<Message, ClientError>)
    ensures
        r == reply_outcome_spec(reply),
{
    match reply {
        None => Err(ClientError::NoReply),
        Some(m) => if m.is_no_responders() {
            Err(ClientError::NoResponders)
        } else {
            Ok(m)
        },
    }
}

/// Law: a delivered reply that does not carry the "no responders" status
/// is returned to the requester exactly as it arrived.
pub proof fn lemma_normal_reply_returned(m: Message)
    requires
        !m.is_no_responders_spec(),
    ensures
        reply_outcome_spec(Some(m)) == Ok::<Message, ClientError>(m),
{
}

/// Law: a reply carrying the "no responders" status fails the request
/// with the Not-Found classification and no other.
pub proof fn lemma_no_responders_classified(m: Message)
    requires
        m.is_no_responders_spec(),
    ensures
        reply_outcome_spec(Some(m)) == Err::<Message, ClientError>(ClientError::NoResponders),
{
}

/// Law: an inbox queue that closes without ever delivering fails the
/// request with the Broken-Pipe classification and no other.
pub proof fn lemma_no_reply_classified()
    ensures
        reply_outcome_spec(None) == Err::<Message, ClientError>(ClientError::NoReply),
{
}

/// Law: the failure surfaces stay apart, so a caller can always tell
/// what went wrong: classifying a flush resolution only ever yields the
/// two flush errors, and classifying a reply only ever yields the two
/// reply errors.
pub proof fn lemma_failure_surfaces_disjoint(w: Option<FlushResult>, reply: Option<Message>)
    ensures
        (flush_outcome_spec(w) matches Err(e) ==> e is FlushSignalDropped || e is FlushFailed),
        (reply_outcome_spec(reply) matches Err(e) ==> e is NoResponders || e is NoReply),
{
}

/// Law: subscription ids never collide.  Every clone of a client draws
/// from the same fetch-and-add counter, so the k-th id ever issued
/// through any clone is the counter's origin plus k; this law states
/// that those values are pairwise distinct.  That the shared atomic
/// hands out exactly this sequence under concurrent callers is the
/// platform's guarantee, exercised by test rather than proof.
pub proof fn lemma_issued_sids_distinct(origin: int, count: nat)
    ensures
        Seq::new(count, |k: int| origin + k).no_duplicates(),
{
    let s = Seq::new(count, |k: int| origin + k);
    assert forall|i: int, j: int|
        0 <= i < s.len() && 0 <= j < s.len() && i != j implies s[i] != s[j] by {
        assert(s[i] == origin + i);
        assert(s[j] == origin + j);
    }
}

/// Law: the three ways a flush resolves stay distinct: fulfilled with
/// success succeeds, fulfilled with a failure carries that failure's
/// reason, and a dropped signal is told apart from both.
pub proof fn lemma_flush_classification(w: Option<FlushResult>)
    ensures
        (w matches Some(fr) ==> (fr is Ok ==> flush_outcome_spec(w) == Ok::<(), ClientError>(
            (),
        ))),
        (w matches Some(fr) ==> (fr matches Err(reason) ==> flush_outcome_spec(w) == Err::<
            (),
            ClientError,
        >(ClientError::FlushFailed { reason }))),
        w is None ==> flush_outcome_spec(w) == Err::<(), ClientError>(
            ClientError::FlushSignalDropped,
        ),
{
}

} // verus!
