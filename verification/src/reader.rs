//! The connection of a port reader.
use vstd::prelude::*;

verus! {

/// Whether a port is connected.
#[derive(Debug, Clone, Copy, PartialEq, Eq, Structural)]
pub enum ConnectionState {
    /// Data is being read.
    Connected,
    /// The connection was lost and is being restored.
    Reconnecting,
    /// The connection was lost for this long and could not be restored.
    Disconnected { since_ms: u64, attempts: u32 },
}

} // verus!
