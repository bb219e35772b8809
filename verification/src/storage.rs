//! What the capture store holds.
use vstd::prelude::*;
use vstd::string::*;

verus! {

/// One captured line.
#[derive(Debug, PartialEq, Eq)]
pub struct StoredLine {
    pub id: i64,
    pub timestamp_ns: i64,
    pub payload: String,
}

impl Clone for StoredLine {
    fn clone(&self) -> (r: StoredLine)
        ensures
            r == *self,
    {
        StoredLine {
            id: self.id,
            timestamp_ns: self.timestamp_ns,
            payload: self.payload.clone(),
        }
    }
}

/// Size and age of a capture buffer.
#[derive(Debug, Clone, Copy, PartialEq, Eq, Structural)]
pub struct BufferStats {
    pub total_lines: u64,
    pub total_bytes: u64,
    pub db_size_bytes: u64,
    pub last_timestamp_ns: Option<i64>,
}

/// A span of time, both ends included.
#[derive(Debug, Clone, Copy, PartialEq, Eq, Structural)]
pub struct TimeRange {
    pub start_ns: i64,
    pub end_ns: i64,
}

} // verus!
