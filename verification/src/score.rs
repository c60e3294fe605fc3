//! Per-user aggregate score, derived from the action-record set and never
//! persisted.

use vstd::prelude::*;

verus! {

/// Counters of one user's contributions, one per action type.
#[derive(Clone, Copy, PartialEq, Eq, Debug, Structural)]
pub struct Score {
    pub bug_confirm: u64,
    pub bug_report: u64,
    pub pr_fix: u64,
}

impl Score {
    /// Weighted total: confirmations are worth 1 point, reports 3, fixes 5.
    pub open spec fn spec_total_points(self) -> int {
        self.bug_confirm + 3 * self.bug_report + 5 * self.pr_fix
    }

    pub fn get_total_points(&self) -> (total: u64)
        requires
            self.spec_total_points() <= u64::MAX,
        ensures
            total == self.spec_total_points(),
    {
        self.bug_confirm + 3 * self.bug_report + 5 * self.pr_fix
    }

    /// The all-zero score a user starts from.
    pub fn zero() -> (s: Score)
        ensures
            s.bug_confirm == 0 && s.bug_report == 0 && s.pr_fix == 0,
    {
        Score { bug_confirm: 0, bug_report: 0, pr_fix: 0 }
    }
}

impl Default for Score {
    fn default() -> (s: Score)
        ensures
            s.bug_confirm == 0 && s.bug_report == 0 && s.pr_fix == 0,
    {
        Score { bug_confirm: 0, bug_report: 0, pr_fix: 0 }
    }
}

} // verus!
