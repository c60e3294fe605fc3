//! The action record: one persisted piece of contribution evidence, with its
//! closed sets of types and lifecycle statuses.

use vstd::prelude::*;
use vstd::string::StringExecFns;
use vstd::string::StrSliceExecFns;

verus! {

/// The kind of contribution a record claims: a bug report, a confirmation of
/// an existing bug, or a pull request fixing one. A fixed, closed set.
#[derive(Clone, Copy, PartialEq, Eq, Debug, Structural)]
pub enum ActionType {
    ReportBug,
    ConfirmBug,
    PRFix,
}

/// Lifecycle status of an action record: it starts `Pending` and transitions
/// exactly once to `Confirmed` or `Denied`, never reverting.
#[derive(Clone, Copy, PartialEq, Eq, Debug, Structural)]
pub enum ActionStatus {
    Pending,
    Confirmed,
    Denied,
}

/// One persisted action record.
pub struct Model {
    /// Unique, monotonically assigned at persistence time; never reused.
    pub id: u32,
    pub action_status: ActionStatus,
    pub action_type: ActionType,
    /// The original reference string, retained for display and re-resolution.
    pub github_link: String,
    /// Opaque identifier of the submitting account.
    pub user_id: String,
}

impl ActionType {
    /// Point value of one confirmed contribution of this type.
    pub open spec fn spec_points(self) -> u8 {
        match self {
            ActionType::ConfirmBug => 1,
            ActionType::ReportBug => 3,
            ActionType::PRFix => 5,
        }
    }

    pub fn get_points(&self) -> (p: u8)
        ensures
            p == self.spec_points(),
    {
        match self {
            ActionType::ConfirmBug => 1,
            ActionType::ReportBug => 3,
            ActionType::PRFix => 5,
        }
    }

    /// The kind of tracker object this type of submission points at.
    pub open spec fn spec_github_type(self) -> Seq<char> {
        match self {
            ActionType::ConfirmBug => "Comment"@,
            ActionType::ReportBug => "Issue"@,
            ActionType::PRFix => "PR"@,
        }
    }

    pub fn get_github_type(&self) -> (r: &'static str)
        ensures
            r@ == self.spec_github_type(),
    {
        match self {
            ActionType::ConfirmBug => "Comment",
            ActionType::ReportBug => "Issue",
            ActionType::PRFix => "PR",
        }
    }

    /// Human-readable label of this submission type.
    pub open spec fn spec_label(self) -> Seq<char> {
        match self {
            ActionType::ReportBug => "Bug Report"@,
            ActionType::ConfirmBug => "Bug Confirmation"@,
            ActionType::PRFix => "Bugfix PR"@,
        }
    }

    pub fn to_string(&self) -> (r: String)
        ensures
            r@ == self.spec_label(),
    {
        match self {
            ActionType::ReportBug => String::from_str("Bug Report"),
            ActionType::ConfirmBug => String::from_str("Bug Confirmation"),
            ActionType::PRFix => String::from_str("Bugfix PR"),
        }
    }

    /// Single-character code under which the type is stored externally.
    pub open spec fn spec_code(self) -> char {
        match self {
            ActionType::ReportBug => 'R',
            ActionType::ConfirmBug => 'C',
            ActionType::PRFix => 'F',
        }
    }

    pub fn to_code(&self) -> (c: char)
        ensures
            c == self.spec_code(),
    {
        match self {
            ActionType::ReportBug => 'R',
            ActionType::ConfirmBug => 'C',
            ActionType::PRFix => 'F',
        }
    }

    pub open spec fn spec_from_code(c: char) -> Option<ActionType> {
        if c == 'R' {
            Some(ActionType::ReportBug)
        } else if c == 'C' {
            Some(ActionType::ConfirmBug)
        } else if c == 'F' {
            Some(ActionType::PRFix)
        } else {
            None
        }
    }

    /// Reads a stored single-character code back; `None` on any other
    /// character. Inverse of `to_code` on the three valid codes.
    pub fn from_code(c: char) -> (r: Option<ActionType>)
        ensures
            r == Self::spec_from_code(c),
    {
        if c == 'R' {
            Some(ActionType::ReportBug)
        } else if c == 'C' {
            Some(ActionType::ConfirmBug)
        } else if c == 'F' {
            Some(ActionType::PRFix)
        } else {
            None
        }
    }
}

impl ActionStatus {
    /// Single-character code under which the status is stored externally.
    pub open spec fn spec_code(self) -> char {
        match self {
            ActionStatus::Pending => '/',
            ActionStatus::Confirmed => 'Y',
            ActionStatus::Denied => 'N',
        }
    }

    pub fn to_code(&self) -> (c: char)
        ensures
            c == self.spec_code(),
    {
        match self {
            ActionStatus::Pending => '/',
            ActionStatus::Confirmed => 'Y',
            ActionStatus::Denied => 'N',
        }
    }

    pub open spec fn spec_from_code(c: char) -> Option<ActionStatus> {
        if c == '/' {
            Some(ActionStatus::Pending)
        } else if c == 'Y' {
            Some(ActionStatus::Confirmed)
        } else if c == 'N' {
            Some(ActionStatus::Denied)
        } else {
            None
        }
    }

    /// Reads a stored single-character code back; `None` on any other
    /// character. Inverse of `to_code` on the three valid codes.
    pub fn from_code(c: char) -> (r: Option<ActionStatus>)
        ensures
            r == Self::spec_from_code(c),
    {
        if c == '/' {
            Some(ActionStatus::Pending)
        } else if c == 'Y' {
            Some(ActionStatus::Confirmed)
        } else if c == 'N' {
            Some(ActionStatus::Denied)
        } else {
            None
        }
    }
}

/// Round trip law: a stored type code always reads back as the type that
/// produced it.
pub proof fn lemma_action_type_code_round_trip(t: ActionType)
    ensures
        ActionType::spec_from_code(t.spec_code()) == Some(t),
{
}

/// Round trip law: a stored status code always reads back as the status that
/// produced it.
pub proof fn lemma_action_status_code_round_trip(s: ActionStatus)
    ensures
        ActionStatus::spec_from_code(s.spec_code()) == Some(s),
{
}

impl Clone for Model {
    fn clone(&self) -> (r: Self)
        ensures
            r == *self,
    {
        Model {
            id: self.id,
            action_status: self.action_status,
            action_type: self.action_type,
            github_link: self.github_link.clone(),
            user_id: self.user_id.clone(),
        }
    }
}

/// The two strings are the same sequence of characters.
fn str_eq(a: &str, b: &str) -> (r: bool)
    ensures
        r == (a@ == b@),
{
    let n = a.unicode_len();
    let m = b.unicode_len();
    if n != m {
        return false;
    }
    let mut k: usize = 0;
    while k < n
        invariant
            0 <= k <= n,
            n == a@.len(),
            n == b@.len(),
            forall|j: int| 0 <= j < k ==> a@[j] == b@[j],
        decreases n - k,
    {
        if a.get_char(k) != b.get_char(k) {
            return false;
        }
        k += 1;
    }
    proof {
        assert(a@ =~= b@);
    }
    true
}

impl ActionType {
    /// Reads the submit command's declared-type option: `bug_report` and
    /// `bug_confirm` name their types, anything else counts as a fix.
    pub fn from_option_code(s: &str) -> (t: ActionType)
        ensures
            t == if s@ == "bug_report"@ {
                ActionType::ReportBug
            } else if s@ == "bug_confirm"@ {
                ActionType::ConfirmBug
            } else {
                ActionType::PRFix
            },
    {
        if str_eq(s, "bug_report") {
            ActionType::ReportBug
        } else if str_eq(s, "bug_confirm") {
            ActionType::ConfirmBug
        } else {
            ActionType::PRFix
        }
    }

    /// Reads a leaderboard category choice; anything unknown means the
    /// general view.
    pub fn from_category_code(s: &str) -> (t: Option<ActionType>)
        ensures
            t == if s@ == "bug_confirm"@ {
                Some(ActionType::ConfirmBug)
            } else if s@ == "bug_report"@ {
                Some(ActionType::ReportBug)
            } else if s@ == "pr_fix"@ {
                Some(ActionType::PRFix)
            } else {
                None::<ActionType>
            },
    {
        if str_eq(s, "bug_confirm") {
            Some(ActionType::ConfirmBug)
        } else if str_eq(s, "bug_report") {
            Some(ActionType::ReportBug)
        } else if str_eq(s, "pr_fix") {
            Some(ActionType::PRFix)
        } else {
            None
        }
    }

    /// The verb a feed announcement uses for this contribution.
    pub open spec fn spec_feed_verb(self) -> Seq<char> {
        match self {
            ActionType::ConfirmBug => "confirmed"@,
            ActionType::ReportBug => "discovered"@,
            ActionType::PRFix => "solved"@,
        }
    }

    pub fn feed_verb(&self) -> (r: &'static str)
        ensures
            r@ == self.spec_feed_verb(),
    {
        match self {
            ActionType::ConfirmBug => "confirmed",
            ActionType::ReportBug => "discovered",
            ActionType::PRFix => "solved",
        }
    }
}

/// Title of one leaderboard board.
pub open spec fn spec_category_title(category: Option<ActionType>) -> Seq<char> {
    match category {
        Some(ActionType::ConfirmBug) => "Bugs Confirmed"@,
        Some(ActionType::ReportBug) => "Bugs Discovered"@,
        Some(ActionType::PRFix) => "Bugs Solved"@,
        None => "Points"@,
    }
}

pub fn category_title(category: Option<ActionType>) -> (r: &'static str)
    ensures
        r@ == spec_category_title(category),
{
    match category {
        Some(ActionType::ConfirmBug) => "Bugs Confirmed",
        Some(ActionType::ReportBug) => "Bugs Discovered",
        Some(ActionType::PRFix) => "Bugs Solved",
        None => "Points",
    }
}

/// Unit a board's metric values are rendered with.
pub open spec fn spec_metric_noun(category: Option<ActionType>) -> Seq<char> {
    match category {
        Some(ActionType::ConfirmBug) => "confirmed bugs"@,
        Some(ActionType::ReportBug) => "discovered bugs"@,
        Some(ActionType::PRFix) => "solved bugs"@,
        None => "points"@,
    }
}

pub fn metric_noun(category: Option<ActionType>) -> (r: &'static str)
    ensures
        r@ == spec_metric_noun(category),
{
    match category {
        Some(ActionType::ConfirmBug) => "confirmed bugs",
        Some(ActionType::ReportBug) => "discovered bugs",
        Some(ActionType::PRFix) => "solved bugs",
        None => "points",
    }
}

} // verus!
