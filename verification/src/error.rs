//! The failures the client can report, by class.

use vstd::prelude::*;
use vstd::string::StringExecFns;

verus! {

/// A failure of the client.
///
/// Configuration failures (`InvalidNetwork`, `InvalidHex`, `InvalidAddress`)
/// are the caller's own mistakes and surface at once. `Transport` failures are the only ones
/// worth another attempt. `Rpc` carries the node's structured rejection with
/// its code and message intact. `Decode` says that a response did not have
/// the shape the call expects.
#[derive(Debug, PartialEq, Eq)]
pub enum GrauxError {
    InvalidNetwork(String),
    InvalidHex(String),
    InvalidAddress(String),
    Transport(String),
    Rpc { code: i64, message: String },
    Decode(String),
}

/// The mathematical value of a [`GrauxError`].
pub enum ErrorView {
    InvalidNetwork(Seq<char>),
    InvalidHex(Seq<char>),
    InvalidAddress(Seq<char>),
    Transport(Seq<char>),
    Rpc { code: i64, message: Seq<char> },
    Decode(Seq<char>),
}

impl View for GrauxError {
    type V = ErrorView;

    open spec fn view(&self) -> ErrorView {
        match self {
            GrauxError::InvalidNetwork(s) => ErrorView::InvalidNetwork(s@),
            GrauxError::InvalidHex(s) => ErrorView::InvalidHex(s@),
            GrauxError::InvalidAddress(s) => ErrorView::InvalidAddress(s@),
            GrauxError::Transport(s) => ErrorView::Transport(s@),
            GrauxError::Rpc { code, message } => ErrorView::Rpc { code: *code, message: message@ },
            GrauxError::Decode(s) => ErrorView::Decode(s@),
        }
    }
}

impl ErrorView {
    /// Only a transport failure may succeed when tried again.
    pub open spec fn retryable(self) -> bool {
        self is Transport
    }

    /// The failure in words: what went wrong, then the text or the node's
    /// message that it is about.
    pub open spec fn message(self) -> Seq<char> {
        match self {
            ErrorView::InvalidNetwork(s) => "Invalid network: "@ + s,
            ErrorView::InvalidHex(s) => "Invalid hexadecimal text: "@ + s,
            ErrorView::InvalidAddress(s) => "Invalid address: "@ + s,
            ErrorView::Transport(s) => "Transport failure: "@ + s,
            ErrorView::Rpc { code, message } => "Node error: "@ + message,
            ErrorView::Decode(s) => "Unexpected response: "@ + s,
        }
    }
}

/// An independent copy of the error.
impl Clone for GrauxError {
    fn clone(&self) -> (r: GrauxError)
        ensures
            r@ == self@,
    {
        match self {
            GrauxError::InvalidNetwork(s) => GrauxError::InvalidNetwork(s.clone()),
            GrauxError::InvalidHex(s) => GrauxError::InvalidHex(s.clone()),
            GrauxError::InvalidAddress(s) => GrauxError::InvalidAddress(s.clone()),
            GrauxError::Transport(s) => GrauxError::Transport(s.clone()),
            GrauxError::Rpc { code, message } => GrauxError::Rpc {
                code: *code,
                message: message.clone(),
            },
            GrauxError::Decode(s) => GrauxError::Decode(s.clone()),
        }
    }
}

impl GrauxError {
    /// The failure in words.
    pub fn message(&self) -> (r: String)
        ensures
            r@ == self@.message(),
    {
        match self {
            GrauxError::InvalidNetwork(s) => String::from_str("Invalid network: ").concat(
                s.as_str(),
            ),
            GrauxError::InvalidHex(s) => String::from_str("Invalid hexadecimal text: ").concat(
                s.as_str(),
            ),
            GrauxError::InvalidAddress(s) => String::from_str("Invalid address: ").concat(
                s.as_str(),
            ),
            GrauxError::Transport(s) => String::from_str("Transport failure: ").concat(s.as_str()),
            GrauxError::Rpc { code, message } => String::from_str("Node error: ").concat(
                message.as_str(),
            ),
            GrauxError::Decode(s) => String::from_str("Unexpected response: ").concat(s.as_str()),
        }
    }

    /// Whether another attempt could change the outcome.
    pub fn is_retryable(&self) -> (r: bool)
        ensures
            r == self@.retryable(),
    {
        match self {
            GrauxError::Transport(_) => true,
            _ => false,
        }
    }

}

} // verus!
