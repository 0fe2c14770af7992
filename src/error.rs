use vstd::prelude::*;

verus! {

/// The recoverable protocol errors returned to callers.
#[derive(Clone, Copy, Debug, PartialEq, Eq, Structural)]
pub enum Error {
    /// A request was submitted while another round trip was still outstanding.
    InvalidInvocation,
    /// A response was delivered while no request was waiting for one.
    InvalidResponse,
    /// The driver was stepped while a request was outstanding and unanswered.
    InvalidStepAttempt,
}

impl Error {
    /// A human-readable description of the error.
    pub fn message(&self) -> (r: &'static str)
        ensures
            *self == Error::InvalidInvocation ==> r@
                == "Attempted to invoke a call from an invalid state."@,
            *self == Error::InvalidResponse ==> r@
                == "Attempted to respond to a call from an invalid state."@,
            *self == Error::InvalidStepAttempt ==> r@
                == "Attempted to advance a step from an invalid state."@,
    {
        match self {
            Error::InvalidInvocation => "Attempted to invoke a call from an invalid state.",
            Error::InvalidResponse => "Attempted to respond to a call from an invalid state.",
            Error::InvalidStepAttempt => "Attempted to advance a step from an invalid state.",
        }
    }
}

} // verus!
