//! Progress reporting values.
//!
//! A [`Progress`] is an immutable snapshot carrying a percent-complete value
//! clamped to `[0, 100]`, byte counters, and an optional status message. Every
//! long-running operation produces these at its milestones; callers forward
//! them to whatever sink they maintain.

use vstd::prelude::*;

verus! {

/// A snapshot of an operation's progress.
#[derive(Debug, Clone, PartialEq, Eq)]
pub struct Progress {
    /// Percent complete, always in `[0, 100]`.
    pub current: u64,
    /// Total size in bytes, if known.
    pub total_bytes: Option<u64>,
    /// Bytes downloaded or processed so far.
    pub processed_bytes: u64,
    /// A human-readable status message, if any.
    pub message: Option<String>,
}

impl Progress {
    /// Creates a progress snapshot at the given percentage, clamped to
    /// `[0, 100]`, with no byte counters and no message.
    pub fn new(current: u64) -> (r: Progress)
        ensures
            r.current == if current <= 100 { current as int } else { 100int },
            r.total_bytes is None,
            r.processed_bytes == 0,
            r.message is None,
    {
        Progress {
            current: if current <= 100 { current } else { 100 },
            total_bytes: None,
            processed_bytes: 0,
            message: None,
        }
    }

    /// Sets the total byte count.
    pub fn with_total_bytes(self, total: u64) -> (r: Progress)
        ensures
            r == (Progress { total_bytes: Some(total), ..self }),
    {
        Progress { total_bytes: Some(total), ..self }
    }

    /// Sets the processed byte count.
    pub fn with_processed_bytes(self, processed: u64) -> (r: Progress)
        ensures
            r == (Progress { processed_bytes: processed, ..self }),
    {
        Progress { processed_bytes: processed, ..self }
    }

    /// Sets the status message.
    pub fn with_message(self, message: String) -> (r: Progress)
        ensures
            r == (Progress { message: Some(message), ..self }),
    {
        Progress { message: Some(message), ..self }
    }

    /// A progress value is well formed when its percentage is in `[0, 100]`.
    pub open spec fn wf(&self) -> bool {
        self.current <= 100
    }
}

} // verus!
