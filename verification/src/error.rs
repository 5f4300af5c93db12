//! The ways in which a call can fail.

use vstd::prelude::*;

verus! {

/// Why a call failed. Nothing is retried: every failure reaches the caller
/// as one of these five kinds.
#[derive(Clone, Copy, Debug, PartialEq, Eq, Structural)]
pub enum ApiError {
    /// The request could not be delivered, or the reply could not be read.
    Transport,
    /// The signing transform rejected the payload.
    Signing,
    /// The server answered in a shape that cannot be used for what was asked.
    Protocol,
    /// The server answered properly, and the answer is that there is nothing.
    NoData,
    /// The caller passed an identifier that does not parse, or asked for a
    /// kind of search whose results are not decoded.
    Input,
}

impl ApiError {
    /// The text of [`ApiError::message`].
    pub open spec fn message_text(self) -> Seq<char> {
        match self {
            ApiError::Transport => "network unreachable"@,
            ApiError::Signing => "request could not be signed"@,
            ApiError::Protocol => "unexpected response"@,
            ApiError::NoData => "nothing found"@,
            ApiError::Input => "invalid request"@,
        }
    }

    /// A short description to show to a user.
    pub fn message(&self) -> (r: &'static str)
        ensures
            r@ == self.message_text(),
    {
        match self {
            ApiError::Transport => "network unreachable",
            ApiError::Signing => "request could not be signed",
            ApiError::Protocol => "unexpected response",
            ApiError::NoData => "nothing found",
            ApiError::Input => "invalid request",
        }
    }
}

} // verus!
