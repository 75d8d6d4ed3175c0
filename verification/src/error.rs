//! The five stage errors of the per-connection pipeline. Any stage failure
//! short-circuits the remaining stages for that connection only.

use vstd::prelude::*;

verus! {

/// One error per pipeline stage. `ReadError` and `NotificationError` arise at
/// the transport edges and are produced by the surrounding binary; the other
/// three are produced by the library itself.
#[derive(Clone, Copy, Debug, PartialEq, Eq)]
pub enum RelayError {
    /// Timeout or transport failure while capturing the inbound bytes.
    ReadError,
    /// The captured bytes cannot be interpreted as a structured message.
    ParseError,
    /// The message lacks a sender address.
    NoSenderError,
    /// No allow-list entry occurs in the sender representation.
    UnauthorizedSenderError,
    /// Transport-level failure of the outbound request.
    NotificationError,
}

impl RelayError {
    /// A fixed diagnostic line for each error, for the accept loop's log.
    pub fn describe(&self) -> (r: &'static str)
        ensures
            self is ReadError ==> r@ == "failed to read message"@,
            self is ParseError ==> r@ == "failed to parse email"@,
            self is NoSenderError ==> r@ == "failed to parse sender"@,
            self is UnauthorizedSenderError ==> r@ == "unknown sender"@,
            self is NotificationError ==> r@ == "failed to send notification"@,
    {
        match self {
            RelayError::ReadError => "failed to read message",
            RelayError::ParseError => "failed to parse email",
            RelayError::NoSenderError => "failed to parse sender",
            RelayError::UnauthorizedSenderError => "unknown sender",
            RelayError::NotificationError => "failed to send notification",
        }
    }
}

} // verus!
