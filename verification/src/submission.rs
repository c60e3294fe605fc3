//! The submission workflow: one user's submit attempt, from a raw reference
//! string to a persisted, announcement-worthy pending record.
//!
//! The flow is an explicit state machine with one suspension point per state.
//! The surrounding session performs each returned effect (a tracker fetch, a
//! prompt, a record creation) and feeds the answer back in as the next
//! event; every decision between the suspension points is made here.

use vstd::prelude::*;

use crate::actions::ActionType;
use crate::config::Config;
use crate::issues::IssueIds;
use crate::issues::spec_from_url_post;
use crate::validation::FetchError;
use crate::validation::IssueInfo;
use crate::validation::RejectReason;
use crate::validation::spec_structure_ok;
use crate::validation::spec_needs_comment_date;
use crate::validation::spec_temporal_ok;

verus! {

/// How a submit attempt ended.
pub enum SubmitTerminal {
    /// The attempt was turned down, with the reason rendered to the user.
    /// A normal outcome, not an error.
    Rejected(RejectReason),
    /// A pending record was created and announced.
    Persisted,
    /// The user cancelled at the confirmation prompt.
    Cancelled,
    /// The confirmation prompt expired.
    TimedOut,
    /// The record could not be created; reported, not escalated.
    PersistFailed,
}

/// Where one submit attempt stands. Each non-terminal state waits for
/// exactly one event.
pub enum SubmissionState {
    /// Waiting for the tracker's answer on the referenced issue.
    Validating { user_id: String, declared: ActionType, link: String, reference: IssueIds },
    /// Waiting for the tracker's answer on the referenced comment.
    FetchingComment {
        user_id: String,
        declared: ActionType,
        link: String,
        reference: IssueIds,
        issue: IssueInfo,
    },
    /// Waiting for the user's confirm or cancel, or the timeout.
    AwaitingConfirmation {
        user_id: String,
        declared: ActionType,
        link: String,
        issue_number: u64,
        issue_title: String,
        effective_date: i64,
    },
    /// Waiting for the persistence collaborator's answer.
    Persisting {
        user_id: String,
        declared: ActionType,
        link: String,
        issue_number: u64,
        issue_title: String,
    },
    Done(SubmitTerminal),
}

/// What the session feeds back into the machine.
pub enum SubmitEvent {
    IssueFetched(Result<IssueInfo, FetchError>),
    /// The referenced comment's creation instant.
    CommentFetched(Result<i64, FetchError>),
    ConfirmPressed,
    CancelPressed,
    WaitTimedOut,
    /// The id of the created record, or the creation failure.
    PersistDone(Result<u32, ()>),
}

/// What the session must do next.
pub enum SubmitEffect {
    /// Resolve this issue from the tracker.
    FetchIssue { issue_id: u64 },
    /// Resolve this comment's creation instant from the tracker.
    FetchComment { comment_id: u64 },
    /// Render the rejection to the user; the attempt is over.
    ShowRejection { reason: RejectReason },
    /// Offer confirm and cancel, bounded by the confirmation timeout.
    PromptConfirm { declared: ActionType, issue_title: String },
    /// Create a pending record with these fields.
    PersistRecord { user_id: String, declared: ActionType, link: String },
    /// Replace the prompt with a success note and announce the contribution
    /// on the feed.
    AnnounceAndConfirm {
        user_id: String,
        declared: ActionType,
        points: u8,
        issue_number: u64,
        issue_title: String,
        link: String,
    },
    ShowPersistFailure,
    ShowCancelled,
    ShowTimeout,
    /// The event does not belong to the current state; nothing happens.
    DoNothing,
}

/// The issue passed the structural and temporal checks: offer confirmation.
pub open spec fn spec_accept_prompt(
    user_id: String,
    declared: ActionType,
    link: String,
    number: u64,
    title: String,
    effective: i64,
) -> (SubmissionState, SubmitEffect) {
    (
        SubmissionState::AwaitingConfirmation {
            user_id,
            declared,
            link,
            issue_number: number,
            issue_title: title,
            effective_date: effective,
        },
        SubmitEffect::PromptConfirm { declared, issue_title: title },
    )
}

pub open spec fn spec_reject(reason: RejectReason) -> (SubmissionState, SubmitEffect) {
    (
        SubmissionState::Done(SubmitTerminal::Rejected(reason)),
        SubmitEffect::ShowRejection { reason },
    )
}

/// The transition relation of the submission workflow.
pub open spec fn spec_step(
    state: SubmissionState,
    event: SubmitEvent,
    contest_start: i64,
) -> (SubmissionState, SubmitEffect) {
    match (state, event) {
        (
            SubmissionState::Validating { user_id, declared, link, reference },
            SubmitEvent::IssueFetched(fetched),
        ) => match fetched {
            Result::Err(_) => spec_reject(RejectReason::TrackerError),
            Result::Ok(issue) => {
                if !spec_structure_ok(reference, declared, issue.is_pull_request, issue.labels@) {
                    spec_reject(RejectReason::TypeMismatch)
                } else if spec_needs_comment_date(declared) {
                    match reference.comment_id {
                        Some(comment_id) => (
                            SubmissionState::FetchingComment {
                                user_id,
                                declared,
                                link,
                                reference,
                                issue,
                            },
                            SubmitEffect::FetchComment { comment_id },
                        ),
                        None => spec_reject(RejectReason::TypeMismatch),
                    }
                } else if !spec_temporal_ok(issue.created_at, contest_start) {
                    spec_reject(
                        RejectReason::BeforeContestStart {
                            contest_start,
                            effective: issue.created_at,
                        },
                    )
                } else {
                    spec_accept_prompt(
                        user_id,
                        declared,
                        link,
                        issue.number,
                        issue.title,
                        issue.created_at,
                    )
                }
            },
        },
        (
            SubmissionState::FetchingComment { user_id, declared, link, reference, issue },
            SubmitEvent::CommentFetched(fetched),
        ) => match fetched {
            Result::Err(_) => spec_reject(RejectReason::CommentNotFound),
            Result::Ok(comment_created) => {
                if !spec_temporal_ok(comment_created, contest_start) {
                    spec_reject(
                        RejectReason::BeforeContestStart {
                            contest_start,
                            effective: comment_created,
                        },
                    )
                } else {
                    spec_accept_prompt(
                        user_id,
                        declared,
                        link,
                        issue.number,
                        issue.title,
                        comment_created,
                    )
                }
            },
        },
        (
            SubmissionState::AwaitingConfirmation {
                user_id,
                declared,
                link,
                issue_number,
                issue_title,
                ..
            },
            SubmitEvent::ConfirmPressed,
        ) => (
            SubmissionState::Persisting {
                user_id,
                declared,
                link: link,
                issue_number,
                issue_title,
            },
            SubmitEffect::PersistRecord { user_id, declared, link },
        ),
        (SubmissionState::AwaitingConfirmation { .. }, SubmitEvent::CancelPressed) => (
            SubmissionState::Done(SubmitTerminal::Cancelled),
            SubmitEffect::ShowCancelled,
        ),
        (SubmissionState::AwaitingConfirmation { .. }, SubmitEvent::WaitTimedOut) => (
            SubmissionState::Done(SubmitTerminal::TimedOut),
            SubmitEffect::ShowTimeout,
        ),
        (
            SubmissionState::Persisting { user_id, declared, link, issue_number, issue_title },
            SubmitEvent::PersistDone(result),
        ) => match result {
            Result::Ok(_) => (
                SubmissionState::Done(SubmitTerminal::Persisted),
                SubmitEffect::AnnounceAndConfirm {
                    user_id,
                    declared,
                    points: declared.spec_points(),
                    issue_number,
                    issue_title,
                    link,
                },
            ),
            Result::Err(_) => (
                SubmissionState::Done(SubmitTerminal::PersistFailed),
                SubmitEffect::ShowPersistFailure,
            ),
        },
        (other, _) => (other, SubmitEffect::DoNothing),
    }
}

/// Starts one submit attempt: parses the reference and, when one is found,
/// asks for the referenced issue; otherwise the attempt ends rejected.
pub fn begin(user_id: String, declared: ActionType, link: String) -> (r: (
    SubmissionState,
    SubmitEffect,
))
    ensures
        exists|p: Option<IssueIds>|
            #[trigger] spec_from_url_post(link@, p) && match p {
                Some(ids) => r == (
                    (SubmissionState::Validating { user_id, declared, link, reference: ids }),
                    (SubmitEffect::FetchIssue { issue_id: ids.issue_id }),
                ),
                None => r == spec_reject(RejectReason::InvalidUrl),
            },
{
    let parsed = IssueIds::from_url(link.as_str());
    match parsed {
        Some(ids) => {
            let ghost p = Some(ids);
            let r = (
                SubmissionState::Validating { user_id, declared, link, reference: ids },
                SubmitEffect::FetchIssue { issue_id: ids.issue_id },
            );
            proof {
                assert(spec_from_url_post(link@, p));
            }
            r
        },
        None => {
            proof {
                assert(spec_from_url_post(link@, Option::<IssueIds>::None));
            }
            (
                SubmissionState::Done(SubmitTerminal::Rejected(RejectReason::InvalidUrl)),
                SubmitEffect::ShowRejection { reason: RejectReason::InvalidUrl },
            )
        },
    }
}

/// Advances the machine by one event and says what to do next.
pub fn step(state: SubmissionState, event: SubmitEvent, config: &Config) -> (r: (
    SubmissionState,
    SubmitEffect,
))
    ensures
        r == spec_step(state, event, config.contest_start_timestamp),
{
    let contest_start = config.contest_start_timestamp;
    match (state, event) {
        (
            SubmissionState::Validating { user_id, declared, link, reference },
            SubmitEvent::IssueFetched(fetched),
        ) => match fetched {
            Result::Err(_) => reject(RejectReason::TrackerError),
            Result::Ok(issue) => {
                if !crate::validation::check_structure(&reference, declared, &issue) {
                    reject(RejectReason::TypeMismatch)
                } else if crate::validation::needs_comment_date(declared) {
                    match reference.comment_id {
                        Some(comment_id) => (
                            SubmissionState::FetchingComment {
                                user_id,
                                declared,
                                link,
                                reference,
                                issue,
                            },
                            SubmitEffect::FetchComment { comment_id },
                        ),
                        None => reject(RejectReason::TypeMismatch),
                    }
                } else if !crate::validation::temporal_ok(issue.created_at, contest_start) {
                    reject(
                        RejectReason::BeforeContestStart {
                            contest_start,
                            effective: issue.created_at,
                        },
                    )
                } else {
                    let number = issue.number;
                    let created = issue.created_at;
                    let title = issue.title;
                    (
                        SubmissionState::AwaitingConfirmation {
                            user_id,
                            declared,
                            link,
                            issue_number: number,
                            issue_title: title.clone(),
                            effective_date: created,
                        },
                        SubmitEffect::PromptConfirm { declared, issue_title: title },
                    )
                }
            },
        },
        (
            SubmissionState::FetchingComment { user_id, declared, link, reference, issue },
            SubmitEvent::CommentFetched(fetched),
        ) => match fetched {
            Result::Err(_) => reject(RejectReason::CommentNotFound),
            Result::Ok(comment_created) => {
                if !crate::validation::temporal_ok(comment_created, contest_start) {
                    reject(
                        RejectReason::BeforeContestStart {
                            contest_start,
                            effective: comment_created,
                        },
                    )
                } else {
                    let number = issue.number;
                    let title = issue.title;
                    (
                        SubmissionState::AwaitingConfirmation {
                            user_id,
                            declared,
                            link,
                            issue_number: number,
                            issue_title: title.clone(),
                            effective_date: comment_created,
                        },
                        SubmitEffect::PromptConfirm { declared, issue_title: title },
                    )
                }
            },
        },
        (
            SubmissionState::AwaitingConfirmation {
                user_id,
                declared,
                link,
                issue_number,
                issue_title,
                ..
            },
            SubmitEvent::ConfirmPressed,
        ) => (
            SubmissionState::Persisting {
                user_id: user_id.clone(),
                declared,
                link: link.clone(),
                issue_number,
                issue_title,
            },
            SubmitEffect::PersistRecord { user_id, declared, link },
        ),
        (SubmissionState::AwaitingConfirmation { .. }, SubmitEvent::CancelPressed) => (
            SubmissionState::Done(SubmitTerminal::Cancelled),
            SubmitEffect::ShowCancelled,
        ),
        (SubmissionState::AwaitingConfirmation { .. }, SubmitEvent::WaitTimedOut) => (
            SubmissionState::Done(SubmitTerminal::TimedOut),
            SubmitEffect::ShowTimeout,
        ),
        (
            SubmissionState::Persisting { user_id, declared, link, issue_number, issue_title },
            SubmitEvent::PersistDone(result),
        ) => match result {
            Result::Ok(_) => {
                let points = declared.get_points();
                (
                    SubmissionState::Done(SubmitTerminal::Persisted),
                    SubmitEffect::AnnounceAndConfirm {
                        user_id,
                        declared,
                        points,
                        issue_number,
                        issue_title,
                        link,
                    },
                )
            },
            Result::Err(_) => (
                SubmissionState::Done(SubmitTerminal::PersistFailed),
                SubmitEffect::ShowPersistFailure,
            ),
        },
        (other, _) => (other, SubmitEffect::DoNothing),
    }
}


/// A confirmation whose reference carries no comment id is rejected as a
/// type mismatch at the first suspension point, whatever the tracker
/// resolved.
pub proof fn lemma_confirm_needs_comment_reference(
    user_id: String,
    link: String,
    reference: IssueIds,
    issue: IssueInfo,
    contest_start: i64,
)
    requires
        reference.comment_id is None,
    ensures
        spec_step(
            SubmissionState::Validating {
                user_id,
                declared: ActionType::ConfirmBug,
                link,
                reference,
            },
            SubmitEvent::IssueFetched(Result::Ok(issue)),
            contest_start,
        ) == spec_reject(RejectReason::TypeMismatch),
{
}

/// The contest-start boundary at the comment suspension point: a comment
/// created exactly at the contest-start instant reaches the confirmation
/// prompt, an earlier one is rejected with both instants.
pub proof fn lemma_comment_date_boundary(
    user_id: String,
    declared: ActionType,
    link: String,
    reference: IssueIds,
    issue: IssueInfo,
    comment_created: i64,
    contest_start: i64,
)
    ensures
        ({
            let r = spec_step(
                SubmissionState::FetchingComment { user_id, declared, link, reference, issue },
                SubmitEvent::CommentFetched(Result::Ok(comment_created)),
                contest_start,
            );
            &&& comment_created >= contest_start ==> r == spec_accept_prompt(
                user_id,
                declared,
                link,
                issue.number,
                issue.title,
                comment_created,
            )
            &&& comment_created < contest_start ==> r == spec_reject(
                RejectReason::BeforeContestStart { contest_start, effective: comment_created },
            )
        }),
{
}

/// Ends the attempt with a rendered rejection.
fn reject(reason: RejectReason) -> (r: (SubmissionState, SubmitEffect))
    ensures
        r == spec_reject(reason),
{
    (
        SubmissionState::Done(SubmitTerminal::Rejected(reason)),
        SubmitEffect::ShowRejection { reason },
    )
}

} // verus!
