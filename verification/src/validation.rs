//! The submission classifier and validator: given a parsed reference, the
//! declared submission category, and the tracker's answers, decides whether
//! the reference is structurally consistent with the category and temporally
//! within the contest window.
//!
//! The tracker itself is an external collaborator; its answers arrive here as
//! plain values and every decision over them is made in this module.

use vstd::prelude::*;
use vstd::string::StringExecFns;

use crate::actions::ActionType;
use crate::issues::IssueIds;

verus! {

/// What the tracker resolved for one issue or pull request.
#[derive(Debug)]
pub struct IssueInfo {
    pub number: u64,
    pub title: String,
    pub is_pull_request: bool,
    /// Names of the labels on the item.
    pub labels: Vec<String>,
    /// Creation instant, Unix seconds.
    pub created_at: i64,
}

/// A failed tracker lookup: the object does not exist, or the transport
/// failed. Neither is retried.
#[derive(Clone, Copy, PartialEq, Eq, Debug, Structural)]
pub enum FetchError {
    NotFound,
    Transport,
}

/// Why a submission was rejected. Rejections are normal, user-visible
/// negative outcomes, never escalated as errors.
#[derive(Clone, Copy, PartialEq, Eq, Debug, Structural)]
pub enum RejectReason {
    /// The submitted string holds no recognizable reference.
    InvalidUrl,
    /// The tracker could not resolve the referenced issue.
    TrackerError,
    /// The reference's shape does not fit the declared submission type.
    TypeMismatch,
    /// The referenced comment could not be resolved.
    CommentNotFound,
    /// The evidence predates the contest; both instants are carried for
    /// display.
    BeforeContestStart { contest_start: i64, effective: i64 },
}

/// Successful validation: enough resolved metadata for confirmation prompts
/// and feed announcements.
pub struct Validated {
    pub title: String,
    pub number: u64,
    pub effective_date: i64,
}

pub enum ValidationOutcome {
    Accepted(Validated),
    Rejected(RejectReason),
}

/// One of the labels is named `bug`.
pub open spec fn spec_has_bug_label(labels: Seq<String>) -> bool {
    exists|i: int| 0 <= i < labels.len() && #[trigger] labels[i]@ == "bug"@
}

pub fn has_bug_label(labels: &Vec<String>) -> (r: bool)
    ensures
        r == spec_has_bug_label(labels@),
{
    let bug = String::from_str("bug");
    proof {
        reveal_strlit("bug");
    }
    let mut i: usize = 0;
    while i < labels.len()
        invariant
            0 <= i <= labels@.len(),
            bug@ == "bug"@,
            forall|j: int| 0 <= j < i ==> #[trigger] labels@[j]@ != "bug"@,
        decreases labels@.len() - i,
    {
        if labels[i].eq(&bug) {
            return true;
        }
        i += 1;
    }
    false
}

/// Structural consistency of a reference with the declared type: a report
/// names a labelled bug issue without a comment, a confirmation names a
/// comment on a labelled bug issue, a fix names a pull request.
pub open spec fn spec_structure_ok(
    reference: IssueIds,
    declared: ActionType,
    is_pull_request: bool,
    labels: Seq<String>,
) -> bool {
    match declared {
        ActionType::ReportBug => !is_pull_request && reference.comment_id is None
            && spec_has_bug_label(labels),
        ActionType::ConfirmBug => !is_pull_request && reference.comment_id is Some
            && spec_has_bug_label(labels),
        ActionType::PRFix => is_pull_request,
    }
}

pub fn check_structure(reference: &IssueIds, declared: ActionType, issue: &IssueInfo) -> (r: bool)
    ensures
        r == spec_structure_ok(*reference, declared, issue.is_pull_request, issue.labels@),
{
    match declared {
        ActionType::ReportBug => !issue.is_pull_request && reference.comment_id.is_none()
            && has_bug_label(&issue.labels),
        ActionType::ConfirmBug => !issue.is_pull_request && reference.comment_id.is_some()
            && has_bug_label(&issue.labels),
        ActionType::PRFix => issue.is_pull_request,
    }
}

/// The instant that places a submission in or out of the contest window is
/// the issue's creation for reports and fixes, the comment's for
/// confirmations; this tells the two apart.
pub open spec fn spec_needs_comment_date(declared: ActionType) -> bool {
    declared is ConfirmBug
}

pub fn needs_comment_date(declared: ActionType) -> (b: bool)
    ensures
        b == spec_needs_comment_date(declared),
{
    match declared {
        ActionType::ConfirmBug => true,
        _ => false,
    }
}

/// The effective date of a submission, read under the guard that the comment
/// answer is present and positive whenever the declared type consumes it.
pub open spec fn spec_effective_date(
    declared: ActionType,
    issue_created: i64,
    comment_fetch: Option<Result<i64, FetchError>>,
) -> i64 {
    if spec_needs_comment_date(declared) {
        match comment_fetch {
            Some(Result::Ok(d)) => d,
            _ => 0,
        }
    } else {
        issue_created
    }
}

/// The contest-start boundary is non-strict: an effective date exactly equal
/// to the contest-start instant is accepted.
pub open spec fn spec_temporal_ok(effective: i64, contest_start: i64) -> bool {
    effective >= contest_start
}

pub fn temporal_ok(effective: i64, contest_start: i64) -> (r: bool)
    ensures
        r == spec_temporal_ok(effective, contest_start),
{
    effective >= contest_start
}

/// The whole validation rule over the tracker's answers.
///
/// `issue_fetch` is the tracker's answer for the referenced issue;
/// `comment_fetch` is its answer for the referenced comment's creation
/// instant, fetched only when a confirmation passes the structural check.
pub open spec fn spec_validate(
    reference: IssueIds,
    declared: ActionType,
    issue_fetch: Result<IssueInfo, FetchError>,
    comment_fetch: Option<Result<i64, FetchError>>,
    contest_start: i64,
) -> ValidationOutcome {
    match issue_fetch {
        Result::Err(_) => ValidationOutcome::Rejected(RejectReason::TrackerError),
        Result::Ok(issue) => {
            if !spec_structure_ok(reference, declared, issue.is_pull_request, issue.labels@) {
                ValidationOutcome::Rejected(RejectReason::TypeMismatch)
            } else if spec_needs_comment_date(declared) && !(comment_fetch matches Some(
                Result::Ok(_),
            )) {
                ValidationOutcome::Rejected(RejectReason::CommentNotFound)
            } else {
                let effective = spec_effective_date(declared, issue.created_at, comment_fetch);
                if !spec_temporal_ok(effective, contest_start) {
                    ValidationOutcome::Rejected(
                        RejectReason::BeforeContestStart { contest_start, effective },
                    )
                } else {
                    ValidationOutcome::Accepted(
                        Validated { title: issue.title, number: issue.number, effective_date: effective },
                    )
                }
            }
        },
    }
}

/// Runs the validation rule. The comment answer is consumed only for a
/// structurally sound confirmation; a missing one counts as unresolved.
pub fn validate(
    reference: &IssueIds,
    declared: ActionType,
    issue_fetch: Result<IssueInfo, FetchError>,
    comment_fetch: Option<Result<i64, FetchError>>,
    contest_start: i64,
) -> (r: ValidationOutcome)
    ensures
        r == spec_validate(*reference, declared, issue_fetch, comment_fetch, contest_start),
{
    match issue_fetch {
        Result::Err(_) => ValidationOutcome::Rejected(RejectReason::TrackerError),
        Result::Ok(issue) => {
            if !check_structure(reference, declared, &issue) {
                return ValidationOutcome::Rejected(RejectReason::TypeMismatch);
            }
            let effective: i64 = if needs_comment_date(declared) {
                match comment_fetch {
                    Some(Result::Ok(d)) => d,
                    _ => {
                        return ValidationOutcome::Rejected(RejectReason::CommentNotFound);
                    },
                }
            } else {
                issue.created_at
            };
            if !temporal_ok(effective, contest_start) {
                return ValidationOutcome::Rejected(
                    RejectReason::BeforeContestStart { contest_start, effective },
                );
            }
            ValidationOutcome::Accepted(
                Validated { title: issue.title, number: issue.number, effective_date: effective },
            )
        },
    }
}

/// A confirmation whose reference has no comment id is always rejected as a
/// type mismatch, regardless of what the tracker resolved.
pub proof fn lemma_confirm_without_comment_rejected(
    reference: IssueIds,
    issue_fetch: Result<IssueInfo, FetchError>,
    comment_fetch: Option<Result<i64, FetchError>>,
    contest_start: i64,
)
    requires
        reference.comment_id is None,
        issue_fetch is Ok,
    ensures
        spec_validate(reference, ActionType::ConfirmBug, issue_fetch, comment_fetch, contest_start)
            == ValidationOutcome::Rejected(RejectReason::TypeMismatch),
{
}

/// The contest-start boundary law: a structurally sound submission is
/// accepted exactly when its effective date is at or after the contest-start
/// instant, and one rejected for timing carries both instants.
pub proof fn lemma_contest_start_boundary(
    reference: IssueIds,
    declared: ActionType,
    issue: IssueInfo,
    comment_fetch: Option<Result<i64, FetchError>>,
    contest_start: i64,
)
    requires
        spec_structure_ok(reference, declared, issue.is_pull_request, issue.labels@),
        spec_needs_comment_date(declared) ==> comment_fetch matches Some(Result::Ok(_)),
    ensures
        ({
            let effective = spec_effective_date(declared, issue.created_at, comment_fetch);
            let r = spec_validate(
                reference,
                declared,
                Result::Ok(issue),
                comment_fetch,
                contest_start,
            );
            &&& effective >= contest_start ==> (r matches ValidationOutcome::Accepted(v)
                && v.effective_date == effective)
            &&& effective < contest_start ==> r == ValidationOutcome::Rejected(
                RejectReason::BeforeContestStart { contest_start, effective },
            )
        }),
{
}

} // verus!
