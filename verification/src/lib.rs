//! A Bayeux (CometD) streaming-client core: it keeps the session state of a
//! publish/subscribe client over HTTP long-polling, classifies the frames a
//! server sends back, and drives the advice-directed retry procedure.
//!
//! The core itself performs no I/O. Every operation is a small state machine:
//! a call such as `stream::CometdClient::connect` yields the protocol
//! message to send, the caller exchanges it over its transport, and hands the
//! parsed reply to `stream::CometdClient::on_exchange`, which yields the
//! next message, the finished batch of frames, or an error.

pub mod errors;
pub mod json;
pub mod response;
pub mod stream;
