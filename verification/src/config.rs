//! Policy configuration of the peer orchestrator.

use vstd::prelude::*;

verus! {

/// Whether the orchestrator opens a connection to a node it first
/// learns of through a node announcement.
pub const DO_CONNECT_TO_NEW_NODES: bool = false;

/// The idle interval, in milliseconds, after which a connection is due
/// for a keepalive ping.
pub const PING_INTERVAL_MS: u64 = 30000;

} // verus!
