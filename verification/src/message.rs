use crate::header::HeaderMap;
use crate::status::StatusCode;
use bytes::Bytes;
use vstd::prelude::*;

verus! {

/// A message delivered by the worker into a subscription's queue.
#[derive(Debug)]
pub struct Message {
    pub subject: String,
    pub payload: Bytes,
    pub headers: Option<HeaderMap>,
    pub status: Option<StatusCode>,
}

impl Message {
    /// Holds exactly of a message that carries the reserved "no
    /// responders" status.
    pub open spec fn is_no_responders_spec(self) -> bool {
        match self.status {
            Some(st) => st.is_no_responders_spec(),
            None => false,
        }
    }

    pub fn is_no_responders(&self) -> (r: bool)
        ensures
            r == self.is_no_responders_spec(),
    {
        match &self.status {
            Some(st) => st.is_no_responders(),
            None => false,
        }
    }
}

} // verus!
