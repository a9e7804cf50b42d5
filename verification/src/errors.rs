//! The error kinds the streaming core reports.

use vstd::prelude::*;

verus! {

/// Why a streaming operation failed.
#[derive(Debug, PartialEq)]
pub enum Error {
    /// An operation that needs a session was called while no session id was
    /// set; no exchange was performed.
    NoSession,
    /// The transport could not complete an exchange; carries the HTTP status
    /// and raw body text when available. Never retried.
    TransportFailure(String),
    /// A reply could not be decoded as JSON, or a frame matched none of the
    /// five documented shapes. Never retried.
    MalformedResponse,
    /// The server reported an error and recovery was impossible, refused by
    /// advice, or exhausted; carries the server-supplied message, or a
    /// generic one when the server gave none.
    ProtocolError(String),
}

/// The mathematical shape of an [`Error`].
pub enum ErrorV {
    NoSession,
    TransportFailure(Seq<char>),
    MalformedResponse,
    ProtocolError(Seq<char>),
}

impl DeepView for Error {
    type V = ErrorV;

    open spec fn deep_view(&self) -> ErrorV {
        match self {
            Error::NoSession => ErrorV::NoSession,
            Error::TransportFailure(s) => ErrorV::TransportFailure(s@),
            Error::MalformedResponse => ErrorV::MalformedResponse,
            Error::ProtocolError(s) => ErrorV::ProtocolError(s@),
        }
    }
}

} // verus!
