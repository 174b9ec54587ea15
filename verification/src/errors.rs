//! Error taxonomy: validation of a topology description, launch-phase
//! failures, live-handle access failures, and wait timeouts.

use vstd::prelude::*;

verus! {

/// A topology description was rejected before any process existed.
#[derive(Clone, Copy, Debug, PartialEq, Eq, Structural)]
pub enum ValidationError {
    /// Two nodes in the descriptor carry the same name.
    DuplicateNodeName,
    /// The descriptor declares no relaychain node at all.
    EmptyRelaychain,
    /// A parachain was declared without any collator.
    ParachainWithoutCollator,
}

/// The process-spawn phase failed; the launcher rolls back every process it
/// already started before reporting one of these.
#[derive(Clone, Copy, Debug, PartialEq, Eq, Structural)]
pub enum LaunchError {
    /// A node's symbolic executable could not be resolved to a binary.
    MissingBinary,
    /// A spawned node did not report liveness within the startup window.
    NodeStartupTimeout,
    /// A process failed to start after earlier ones already had; the
    /// partial network was torn down.
    PartialStartupFailure,
}

/// A lookup on a live network handle failed; local to that one lookup.
#[derive(Clone, Copy, Debug, PartialEq, Eq, Structural)]
pub enum AccessError {
    /// No node of the requested name exists in the handle.
    NotFound,
    /// The handle was shut down; no further access is served.
    NetworkClosed,
    /// The node exists but its RPC endpoint is not reachable.
    Connection,
}

/// A wait primitive exhausted its attempt budget before its condition held.
#[derive(Clone, Copy, Debug, PartialEq, Eq, Structural)]
pub struct WaitTimeoutError {
    /// How many samples were taken before giving up.
    pub attempts_made: usize,
}

} // verus!
