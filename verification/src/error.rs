//! Structured errors for the acquisition paths, with their process exit
//! codes.
//!
//! Acquisition functions return these instead of terminating the process;
//! only the outermost entry point decides on termination and maps an error
//! to an exit code.

use vstd::prelude::*;

verus! {

/// A fatal acquisition failure.
#[derive(Debug, PartialEq)]
pub enum Error {
    /// A profile had to be synthesized from scratch and the requested type
    /// names neither known variant.
    UnknownProfileType,
    /// The request could not be sent or no response arrived.
    Transport,
    /// The server answered a one-shot exchange with a non-success status.
    Http(u16),
    /// A response body did not match the expected shape.
    Decode,
    /// The provider ended a device-code poll with an explicit non-pending
    /// error, such as a denial by the user.
    Denied(String),
    /// The device code's own lifetime elapsed before the user completed the
    /// interactive step.
    TimedOut,
}

impl Clone for Error {
    fn clone(&self) -> (r: Self)
        ensures
            r == *self,
    {
        match self {
            Error::UnknownProfileType => Error::UnknownProfileType,
            Error::Transport => Error::Transport,
            Error::Http(s) => Error::Http(*s),
            Error::Decode => Error::Decode,
            Error::Denied(msg) => Error::Denied(msg.clone()),
            Error::TimedOut => Error::TimedOut,
        }
    }
}

impl Error {
    /// The process exit code this failure maps to: the HTTP status for a
    /// failed one-shot exchange, small fixed codes otherwise.
    pub open spec fn spec_exit_code(&self) -> int {
        match self {
            Error::UnknownProfileType => 3,
            Error::Transport => 1,
            Error::Http(status) => *status as int,
            Error::Decode => 2,
            Error::Denied(_) => 2,
            Error::TimedOut => 2,
        }
    }

    /// The exit code for this failure.
    pub fn exit_code(&self) -> (r: i32)
        ensures
            r as int == self.spec_exit_code(),
    {
        match self {
            Error::UnknownProfileType => 3,
            Error::Transport => 1,
            Error::Http(status) => *status as i32,
            Error::Decode => 2,
            Error::Denied(_) => 2,
            Error::TimedOut => 2,
        }
    }
}

} // verus!
