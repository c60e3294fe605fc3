//! Contest configuration, constructed once at process start and passed by
//! reference to every component that needs it.

use vstd::prelude::*;

verus! {

/// Contest window and fixed display targets. Channel and message identifiers
/// are the transport's numeric ids; timestamps are Unix seconds.
pub struct Config {
    pub contest_start_timestamp: i64,
    pub contest_end_timestamp: i64,
    pub feed_channel: u64,
    pub permanent_leaderboard_channel: u64,
    pub permanent_leaderboard_message: u64,
}

/// Seconds a submitter is given to confirm or cancel a submission.
pub const SUBMIT_CONFIRM_TIMEOUT_SECS: u64 = 60;

/// Seconds a moderator is given to decide on a presented submission.
pub const VERIFY_DECISION_TIMEOUT_SECS: u64 = 180;

/// Seconds between two refreshes of the permanent leaderboard display.
pub const LEADERBOARD_REFRESH_SECS: u64 = 120;

} // verus!
