use vstd::prelude::*;

verus! {

/// Settings read once at startup and handed to the loop and the endpoints.
#[derive(Clone, Debug, PartialEq, Eq)]
pub struct Config {
    /// Seconds between two ticks of the reconciliation loop.
    pub interval_seconds: u64,
    /// Whole hours added to the UTC clock before it is read.
    pub hour_offset: i64,
    /// Secret that callers of the status endpoints present.
    pub access_key: String,
    /// Location of the almanac of sun times.
    pub schedule_file: String,
    /// Location of the persisted door record.
    pub status_file: String,
}

} // verus!
