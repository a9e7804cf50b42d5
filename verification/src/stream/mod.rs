//! The streaming (Bayeux/CometD) core: response model, classifier, protocol
//! messages, and the session state machine.

pub mod advice;
pub mod classify;
pub mod client;
pub mod laws;
pub mod message;
pub mod response;

pub use advice::Advice;
pub use client::CometdClient;
pub use response::StreamResponse;
