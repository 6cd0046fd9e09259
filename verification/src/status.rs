use vstd::prelude::*;

verus! {

/// The status code reserved by the protocol to mean "no responders were
/// listening on the subject a request targeted".
pub const NO_RESPONDERS_CODE: u16 = 503;

/// A protocol status code optionally carried by a delivered message.
#[derive(Clone, Copy, Debug, PartialEq, Eq, Structural)]
pub struct StatusCode {
    pub code: u16,
}

impl StatusCode {
    pub fn new(code: u16) -> (s: StatusCode)
        ensures
            s.code == code,
    {
        StatusCode { code }
    }

    /// The distinguished status that signals "no responders" for a request.
    pub fn no_responders() -> (s: StatusCode)
        ensures
            s.code == NO_RESPONDERS_CODE,
    {
        StatusCode { code: NO_RESPONDERS_CODE }
    }

    pub open spec fn is_no_responders_spec(self) -> bool {
        self.code == NO_RESPONDERS_CODE
    }

    pub fn is_no_responders(&self) -> (r: bool)
        ensures
            r == self.is_no_responders_spec(),
    {
        self.code == NO_RESPONDERS_CODE
    }
}

} // verus!
