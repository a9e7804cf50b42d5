//! The advice a Bayeux server embeds in a frame to direct how the client
//! should proceed after a failure.

use vstd::prelude::*;

verus! {

/// The `reconnect` policy of an advice object.
#[derive(Clone, Copy, Debug, PartialEq, Eq)]
pub enum Reconnect {
    /// Wire value `"handshake"`: establish a fresh session, re-subscribe,
    /// then retry the operation.
    Handshake,
    /// Wire value `"retry"`: repeat the exchange as it was.
    Retry,
    /// Wire value `"none"`: do not reconnect nor handshake.
    Stop,
}

/// Server guidance embedded in a frame: the reconnect policy, and optional
/// polling hints that this core carries but does not interpret.
#[derive(Clone, Copy, Debug, PartialEq, Eq)]
pub struct Advice {
    pub reconnect: Reconnect,
    pub interval: Option<i64>,
    pub timeout: Option<i64>,
}

} // verus!
