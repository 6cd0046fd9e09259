use vstd::prelude::*;

verus! {

/// The classification of a [`ClientError`], with no data attached, so that
/// callers can branch on what went wrong without reading the error's fields.
#[derive(Clone, Copy, Debug, PartialEq, Eq, Structural)]
pub enum ErrorKind {
    ChannelClosed,
    FlushSignalDropped,
    FlushFailed,
    NoResponders,
    NoReply,
}

/// Every failure this client surfaces.  Nothing is recovered locally: each
/// operation hands the first failure it meets to its caller.
#[derive(Debug)]
pub enum ClientError {
    /// A command could not be accepted because the worker end of the
    /// command channel has terminated.
    ChannelClosed,
    /// A flush's completion signal was dropped before it was fulfilled, so
    /// nothing is known about the fate of the queued commands.
    FlushSignalDropped,
    /// The worker fulfilled a flush's completion signal with a failure,
    /// carrying its reason.
    FlushFailed { reason: String },
    /// A request was answered with the reserved "no responders" status: no
    /// listener exists for the subject.
    NoResponders,
    /// A request's delivery queue closed before any reply arrived.
    NoReply,
}

impl Clone for ClientError {
    /// The clone keeps the classification; a flush failure keeps its
    /// reason text.
    fn clone(&self) -> (c: Self)
        ensures
            c.kind_spec() == self.kind_spec(),
            (c matches ClientError::FlushFailed { reason } ==> (self
                matches ClientError::FlushFailed { reason: original } && reason@ == original@)),
    {
        match self {
            ClientError::ChannelClosed => ClientError::ChannelClosed,
            ClientError::FlushSignalDropped => ClientError::FlushSignalDropped,
            ClientError::FlushFailed { reason } => ClientError::FlushFailed {
                reason: reason.clone(),
            },
            ClientError::NoResponders => ClientError::NoResponders,
            ClientError::NoReply => ClientError::NoReply,
        }
    }
}

impl ClientError {
    pub open spec fn kind_spec(self) -> ErrorKind {
        match self {
            ClientError::ChannelClosed => ErrorKind::ChannelClosed,
            ClientError::FlushSignalDropped => ErrorKind::FlushSignalDropped,
            ClientError::FlushFailed { .. } => ErrorKind::FlushFailed,
            ClientError::NoResponders => ErrorKind::NoResponders,
            ClientError::NoReply => ErrorKind::NoReply,
        }
    }

    /// The data-free classification of this error.
    pub fn kind(&self) -> (k: ErrorKind)
        ensures
            k == self.kind_spec(),
    {
        match self {
            ClientError::ChannelClosed => ErrorKind::ChannelClosed,
            ClientError::FlushSignalDropped => ErrorKind::FlushSignalDropped,
            ClientError::FlushFailed { .. } => ErrorKind::FlushFailed,
            ClientError::NoResponders => ErrorKind::NoResponders,
            ClientError::NoReply => ErrorKind::NoReply,
        }
    }
}

} // verus!
