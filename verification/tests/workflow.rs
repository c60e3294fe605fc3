use caterpie::actions::category_title;
use caterpie::actions::metric_noun;
use caterpie::actions::ActionStatus;
use caterpie::actions::ActionType;
use caterpie::config::Config;
use caterpie::store::ActionStore;
use caterpie::submission::begin;
use caterpie::submission::step;
use caterpie::submission::SubmissionState;
use caterpie::submission::SubmitEffect;
use caterpie::submission::SubmitEvent;
use caterpie::submission::SubmitTerminal;
use caterpie::validation::FetchError;
use caterpie::validation::IssueInfo;
use caterpie::validation::RejectReason;
use caterpie::verification::decide;
use caterpie::verification::select_pending;
use caterpie::verification::VerifyDecision;
use caterpie::verification::VerifyOutcome;

const CONTEST_START: i64 = 1_749_506_400;

fn config() -> Config {
    Config {
        contest_start_timestamp: CONTEST_START,
        contest_end_timestamp: CONTEST_START + 86_400,
        feed_channel: 1,
        permanent_leaderboard_channel: 2,
        permanent_leaderboard_message: 3,
    }
}

fn issue_url() -> String {
    String::from("https://github.com/rh-hideout/pokeemerald-expansion/issues/42")
}

fn bug_issue(created_at: i64) -> IssueInfo {
    IssueInfo {
        number: 42,
        title: String::from("Rattata cannot learn Tackle"),
        is_pull_request: false,
        labels: vec![String::from("bug")],
        created_at,
    }
}

#[test]
fn submission_happy_path_persists_and_announces() {
    let cfg = config();
    let (state, effect) = begin(String::from("u1"), ActionType::ReportBug, issue_url());
    match &effect {
        SubmitEffect::FetchIssue { issue_id } => assert_eq!(*issue_id, 42),
        _ => panic!("the machine must ask for the issue first"),
    }

    let (state, effect) = step(
        state,
        SubmitEvent::IssueFetched(Ok(bug_issue(CONTEST_START + 10))),
        &cfg,
    );
    match &effect {
        SubmitEffect::PromptConfirm { declared, issue_title } => {
            assert_eq!(*declared, ActionType::ReportBug);
            assert_eq!(issue_title, "Rattata cannot learn Tackle");
        },
        _ => panic!("a valid submission must reach the confirmation prompt"),
    }

    let (state, effect) = step(state, SubmitEvent::ConfirmPressed, &cfg);
    match &effect {
        SubmitEffect::PersistRecord { user_id, declared, link } => {
            assert_eq!(user_id, "u1");
            assert_eq!(*declared, ActionType::ReportBug);
            assert_eq!(*link, issue_url());
        },
        _ => panic!("confirming must persist the record"),
    }

    let (state, effect) = step(state, SubmitEvent::PersistDone(Ok(1)), &cfg);
    match &effect {
        SubmitEffect::AnnounceAndConfirm { user_id, points, issue_number, link, .. } => {
            assert_eq!(user_id, "u1");
            assert_eq!(*points, 3);
            assert_eq!(*issue_number, 42);
            assert_eq!(*link, issue_url());
        },
        _ => panic!("a created record must be announced"),
    }
    assert!(matches!(state, SubmissionState::Done(SubmitTerminal::Persisted)));
}

#[test]
fn submission_rejects_malformed_url() {
    let (state, effect) = begin(String::from("u1"), ActionType::ReportBug, String::from("nope"));
    assert!(matches!(
        state,
        SubmissionState::Done(SubmitTerminal::Rejected(RejectReason::InvalidUrl))
    ));
    assert!(matches!(
        effect,
        SubmitEffect::ShowRejection { reason: RejectReason::InvalidUrl }
    ));
}

#[test]
fn submission_cancel_and_timeout_create_nothing() {
    let cfg = config();
    let (state, _) = begin(String::from("u1"), ActionType::ReportBug, issue_url());
    let (state, _) = step(
        state,
        SubmitEvent::IssueFetched(Ok(bug_issue(CONTEST_START + 10))),
        &cfg,
    );
    let (cancelled, effect) = step(state, SubmitEvent::CancelPressed, &cfg);
    assert!(matches!(cancelled, SubmissionState::Done(SubmitTerminal::Cancelled)));
    assert!(matches!(effect, SubmitEffect::ShowCancelled));

    let (state, _) = begin(String::from("u1"), ActionType::ReportBug, issue_url());
    let (state, _) = step(
        state,
        SubmitEvent::IssueFetched(Ok(bug_issue(CONTEST_START + 10))),
        &cfg,
    );
    let (timed_out, effect) = step(state, SubmitEvent::WaitTimedOut, &cfg);
    assert!(matches!(timed_out, SubmissionState::Done(SubmitTerminal::TimedOut)));
    assert!(matches!(effect, SubmitEffect::ShowTimeout));
}

#[test]
fn submission_reports_persistence_failure() {
    let cfg = config();
    let (state, _) = begin(String::from("u1"), ActionType::PRFix, String::from(
        "https://github.com/rh-hideout/pokeemerald-expansion/pull/77",
    ));
    let mut pr = bug_issue(CONTEST_START + 10);
    pr.is_pull_request = true;
    let (state, _) = step(state, SubmitEvent::IssueFetched(Ok(pr)), &cfg);
    let (state, _) = step(state, SubmitEvent::ConfirmPressed, &cfg);
    let (state, effect) = step(state, SubmitEvent::PersistDone(Err(())), &cfg);
    assert!(matches!(state, SubmissionState::Done(SubmitTerminal::PersistFailed)));
    assert!(matches!(effect, SubmitEffect::ShowPersistFailure));
}

#[test]
fn confirmation_flow_fetches_and_checks_the_comment() {
    let cfg = config();
    let url = String::from(
        "https://github.com/rh-hideout/pokeemerald-expansion/issues/42#issuecomment-99",
    );
    let (state, _) = begin(String::from("u2"), ActionType::ConfirmBug, url);
    let (state, effect) = step(
        state,
        SubmitEvent::IssueFetched(Ok(bug_issue(CONTEST_START - 100))),
        &cfg,
    );
    match &effect {
        SubmitEffect::FetchComment { comment_id } => assert_eq!(*comment_id, 99),
        _ => panic!("a confirmation must resolve its comment"),
    }
    // A comment from before the contest is rejected with both instants.
    let (state, effect) = step(
        state,
        SubmitEvent::CommentFetched(Ok(CONTEST_START - 1)),
        &cfg,
    );
    match effect {
        SubmitEffect::ShowRejection {
            reason: RejectReason::BeforeContestStart { contest_start, effective },
        } => {
            assert_eq!(contest_start, CONTEST_START);
            assert_eq!(effective, CONTEST_START - 1);
        },
        _ => panic!("pre-contest comments must be rejected"),
    }
    assert!(matches!(
        state,
        SubmissionState::Done(SubmitTerminal::Rejected(RejectReason::BeforeContestStart { .. }))
    ));
}

#[test]
fn comment_lookup_failure_rejects_the_confirmation() {
    let cfg = config();
    let url = String::from(
        "https://github.com/rh-hideout/pokeemerald-expansion/issues/42#issuecomment-99",
    );
    let (state, _) = begin(String::from("u2"), ActionType::ConfirmBug, url);
    let (state, _) = step(
        state,
        SubmitEvent::IssueFetched(Ok(bug_issue(CONTEST_START + 1))),
        &cfg,
    );
    let (state, effect) = step(
        state,
        SubmitEvent::CommentFetched(Err(FetchError::NotFound)),
        &cfg,
    );
    assert!(matches!(
        state,
        SubmissionState::Done(SubmitTerminal::Rejected(RejectReason::CommentNotFound))
    ));
    assert!(matches!(
        effect,
        SubmitEffect::ShowRejection { reason: RejectReason::CommentNotFound }
    ));
}

#[test]
fn store_assigns_monotonic_ids_and_pending_status() {
    let mut store = ActionStore::new();
    let id1 = store
        .create(String::from("u1"), ActionType::ReportBug, issue_url())
        .expect("creation expected");
    let id2 = store
        .create(String::from("u2"), ActionType::PRFix, issue_url())
        .expect("creation expected");
    assert_eq!(id1, 1);
    assert_eq!(id2, 2);
    let records = store.find_all();
    assert_eq!(records.len(), 2);
    assert_eq!(records[0].action_status, ActionStatus::Pending);
    assert_eq!(records[1].action_status, ActionStatus::Pending);
    assert!(records[0].id < records[1].id);
}

#[test]
fn status_settles_exactly_once() {
    let mut store = ActionStore::new();
    let id = store
        .create(String::from("u1"), ActionType::ReportBug, issue_url())
        .expect("creation expected");
    assert!(store.update_status(id, ActionStatus::Confirmed));
    assert_eq!(store.find_all()[0].action_status, ActionStatus::Confirmed);
    // A settled record never transitions again.
    assert!(!store.update_status(id, ActionStatus::Denied));
    assert_eq!(store.find_all()[0].action_status, ActionStatus::Confirmed);
    // An unknown id settles nothing.
    assert!(!store.update_status(999, ActionStatus::Denied));
}

#[test]
fn selection_picks_the_oldest_pending_record() {
    let mut store = ActionStore::new();
    let id1 = store
        .create(String::from("u1"), ActionType::ReportBug, issue_url())
        .expect("creation expected");
    let _id2 = store
        .create(String::from("u2"), ActionType::ConfirmBug, issue_url())
        .expect("creation expected");
    let i = select_pending(store.find_all(), &None).expect("a pending record exists");
    assert_eq!(store.find_all()[i].id, id1);

    // Scoped to one user, the other user's records are skipped.
    let i = select_pending(store.find_all(), &Some(String::from("u2")))
        .expect("a pending record of u2 exists");
    assert_eq!(store.find_all()[i].user_id, "u2");

    // Settled records are no longer presented.
    assert!(store.update_status(id1, ActionStatus::Denied));
    let i = select_pending(store.find_all(), &None).expect("one pending record left");
    assert_eq!(store.find_all()[i].user_id, "u2");
}

#[test]
fn presenting_twice_selects_the_same_record() {
    let mut store = ActionStore::new();
    store
        .create(String::from("u1"), ActionType::ReportBug, issue_url())
        .expect("creation expected");
    store
        .create(String::from("u1"), ActionType::PRFix, issue_url())
        .expect("creation expected");
    let first = select_pending(store.find_all(), &None);
    let second = select_pending(store.find_all(), &None);
    assert_eq!(first, second);
    assert_eq!(first, Some(0));
}

#[test]
fn empty_queue_presents_nothing() {
    let store = ActionStore::new();
    assert_eq!(select_pending(store.find_all(), &None), None);
    assert_eq!(select_pending(store.find_all(), &Some(String::from("u1"))), None);
}

#[test]
fn decisions_map_to_session_moves() {
    assert_eq!(
        decide(VerifyDecision::Confirm, 7),
        VerifyOutcome::Update { id: 7, status: ActionStatus::Confirmed }
    );
    assert_eq!(
        decide(VerifyDecision::Refuse, 7),
        VerifyOutcome::Update { id: 7, status: ActionStatus::Denied }
    );
    assert_eq!(decide(VerifyDecision::Stop, 7), VerifyOutcome::Stopped);
    assert_eq!(decide(VerifyDecision::TimedOut, 7), VerifyOutcome::TimedOut);
}

#[test]
fn stored_codes_round_trip() {
    for t in [ActionType::ReportBug, ActionType::ConfirmBug, ActionType::PRFix] {
        assert_eq!(ActionType::from_code(t.to_code()), Some(t));
    }
    for s in [ActionStatus::Pending, ActionStatus::Confirmed, ActionStatus::Denied] {
        assert_eq!(ActionStatus::from_code(s.to_code()), Some(s));
    }
    assert_eq!(ActionType::from_code('x'), None);
    assert_eq!(ActionStatus::from_code('x'), None);
}

#[test]
fn type_metadata_matches_the_rules() {
    assert_eq!(ActionType::ConfirmBug.get_points(), 1);
    assert_eq!(ActionType::ReportBug.get_points(), 3);
    assert_eq!(ActionType::PRFix.get_points(), 5);
    assert_eq!(ActionType::ConfirmBug.get_github_type(), "Comment");
    assert_eq!(ActionType::ReportBug.get_github_type(), "Issue");
    assert_eq!(ActionType::PRFix.get_github_type(), "PR");
    assert_eq!(ActionType::ReportBug.to_string(), "Bug Report");
    assert_eq!(ActionType::ConfirmBug.to_string(), "Bug Confirmation");
    assert_eq!(ActionType::PRFix.to_string(), "Bugfix PR");
    assert_eq!(ActionType::ConfirmBug.feed_verb(), "confirmed");
}

#[test]
fn option_codes_select_types() {
    assert_eq!(ActionType::from_option_code("bug_report"), ActionType::ReportBug);
    assert_eq!(ActionType::from_option_code("bug_confirm"), ActionType::ConfirmBug);
    assert_eq!(ActionType::from_option_code("fix_pr"), ActionType::PRFix);
    assert_eq!(
        ActionType::from_category_code("bug_confirm"),
        Some(ActionType::ConfirmBug)
    );
    assert_eq!(
        ActionType::from_category_code("bug_report"),
        Some(ActionType::ReportBug)
    );
    assert_eq!(ActionType::from_category_code("pr_fix"), Some(ActionType::PRFix));
    assert_eq!(ActionType::from_category_code("general"), None);
}

#[test]
fn display_labels_match_the_boards() {
    assert_eq!(category_title(Some(ActionType::ConfirmBug)), "Bugs Confirmed");
    assert_eq!(category_title(Some(ActionType::ReportBug)), "Bugs Discovered");
    assert_eq!(category_title(Some(ActionType::PRFix)), "Bugs Solved");
    assert_eq!(category_title(None), "Points");
    assert_eq!(metric_noun(None), "points");
    assert_eq!(metric_noun(Some(ActionType::PRFix)), "solved bugs");
}
