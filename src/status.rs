use vstd::prelude::*;

verus! {

/// What the probe of one URL came to.
#[derive(Debug, Clone, PartialEq, Eq)]
pub enum ProbeOutcome {
    /// A response arrived. Any status code counts, 4xx and 5xx included:
    /// the code itself is the signal.
    Success { status_code: u16 },
    /// No response arrived in any attempt; the description of the last error.
    Failure { message: String },
}

/// The record made once for each URL of a run.
#[derive(Debug, Clone, PartialEq, Eq)]
pub struct WorkResult {
    pub url: String,
    pub outcome: ProbeOutcome,
    /// Wall-clock time from the start of the first attempt to the outcome,
    /// in whole milliseconds.
    pub elapsed_ms: u64,
    /// When the outcome was determined, in seconds since the Unix epoch.
    pub observed_at: u64,
}

} // verus!
