use caterpie::actions::ActionStatus;
use caterpie::actions::ActionType;
use caterpie::actions::Model;
use caterpie::ranking::rank;
use caterpie::ranking::leaderboard_sections;
use caterpie::ranking::standings;
use caterpie::ranking::RankMarker;
use caterpie::score::Score;

fn record(id: u32, user: &str, t: ActionType, status: ActionStatus) -> Model {
    Model {
        id,
        action_status: status,
        action_type: t,
        github_link: String::from("https://github.com/rh-hideout/pokeemerald-expansion/issues/1"),
        user_id: String::from(user),
    }
}

fn confirmed(id: u32, user: &str, t: ActionType) -> Model {
    record(id, user, t, ActionStatus::Confirmed)
}

#[test]
fn total_points_formula() {
    let s = Score { bug_confirm: 2, bug_report: 1, pr_fix: 1 };
    assert_eq!(s.get_total_points(), 2 + 3 + 5);
    let z = Score { bug_confirm: 0, bug_report: 0, pr_fix: 0 };
    assert_eq!(z.get_total_points(), 0);
}

#[test]
fn end_to_end_general_ranking() {
    // A: 5 reports (15 points), B: 2 confirmations (2), C: 1 fix (5).
    let mut actions = Vec::new();
    for i in 0..5 {
        actions.push(confirmed(i + 1, "A", ActionType::ReportBug));
    }
    actions.push(confirmed(6, "B", ActionType::ConfirmBug));
    actions.push(confirmed(7, "B", ActionType::ConfirmBug));
    actions.push(confirmed(8, "C", ActionType::PRFix));

    let lines = rank(&actions, None, &None, 3);
    assert_eq!(lines.len(), 3);
    assert_eq!(lines[0].user_id, "A");
    assert_eq!(lines[0].value, 15);
    assert_eq!(lines[0].position, 1);
    assert_eq!(lines[1].user_id, "C");
    assert_eq!(lines[1].value, 5);
    assert_eq!(lines[2].user_id, "B");
    assert_eq!(lines[2].value, 2);
    for w in lines.windows(2) {
        assert!(w[0].value >= w[1].value);
    }
}

#[test]
fn pending_and_denied_records_do_not_score() {
    let actions = vec![
        confirmed(1, "A", ActionType::ReportBug),
        record(2, "A", ActionType::ReportBug, ActionStatus::Pending),
        record(3, "A", ActionType::PRFix, ActionStatus::Denied),
        record(4, "B", ActionType::PRFix, ActionStatus::Pending),
    ];
    let lines = rank(&actions, None, &None, 10);
    assert_eq!(lines.len(), 1);
    assert_eq!(lines[0].user_id, "A");
    assert_eq!(lines[0].value, 3);
}

#[test]
fn category_ranking_counts_matching_type_only() {
    let actions = vec![
        confirmed(1, "A", ActionType::ReportBug),
        confirmed(2, "A", ActionType::PRFix),
        confirmed(3, "B", ActionType::ReportBug),
        confirmed(4, "B", ActionType::ReportBug),
    ];
    let lines = rank(&actions, Some(ActionType::ReportBug), &None, 10);
    assert_eq!(lines.len(), 2);
    assert_eq!(lines[0].user_id, "B");
    assert_eq!(lines[0].value, 2);
    assert_eq!(lines[1].user_id, "A");
    assert_eq!(lines[1].value, 1);
}

#[test]
fn highlight_off_list_appends_exactly_one_extra_line() {
    // Four users with descending scores; the board shows two of them and the
    // requesting user ranks fourth.
    let mut actions = Vec::new();
    let mut id = 1;
    for (user, reports) in [("A", 4), ("B", 3), ("C", 2), ("D", 1)] {
        for _ in 0..reports {
            actions.push(confirmed(id, user, ActionType::ReportBug));
            id += 1;
        }
    }
    let lines = rank(&actions, None, &Some(String::from("D")), 2);
    assert_eq!(lines.len(), 3);
    assert!(!lines[0].is_extra);
    assert!(!lines[1].is_extra);
    let extra = &lines[2];
    assert!(extra.is_extra);
    assert!(extra.is_invoker);
    assert_eq!(extra.user_id, "D");
    assert_eq!(extra.position, 4);
    assert_eq!(extra.value, 3);
    assert_eq!(lines.iter().filter(|l| l.is_extra).count(), 1);
}

#[test]
fn highlight_on_list_marks_the_row() {
    let actions = vec![
        confirmed(1, "A", ActionType::ReportBug),
        confirmed(2, "B", ActionType::PRFix),
    ];
    let lines = rank(&actions, None, &Some(String::from("A")), 5);
    assert_eq!(lines.len(), 2);
    assert_eq!(lines[1].user_id, "A");
    assert!(lines[1].is_invoker);
    assert!(!lines[1].is_extra);
    assert!(!lines[0].is_invoker);
}

#[test]
fn absent_highlight_user_adds_no_line() {
    let actions = vec![confirmed(1, "A", ActionType::ReportBug)];
    let lines = rank(&actions, None, &Some(String::from("ghost")), 5);
    assert_eq!(lines.len(), 1);
    assert!(!lines[0].is_extra);
}

#[test]
fn ties_break_by_older_first_record() {
    let actions = vec![
        confirmed(1, "late", ActionType::ReportBug),
        confirmed(2, "early", ActionType::ReportBug),
    ];
    // Both users hold 3 points; "late" submitted first and ranks higher.
    let lines = rank(&actions, None, &None, 5);
    assert_eq!(lines[0].user_id, "late");
    assert_eq!(lines[1].user_id, "early");
}

#[test]
fn fewer_users_than_limit_renders_partially() {
    let actions = vec![confirmed(1, "A", ActionType::ConfirmBug)];
    let lines = rank(&actions, None, &None, 5);
    assert_eq!(lines.len(), 1);
    let empty: Vec<Model> = Vec::new();
    assert!(rank(&empty, None, &None, 5).is_empty());
}

#[test]
fn markers_follow_positions() {
    let mut actions = Vec::new();
    let mut id = 1;
    for (user, reports) in [("A", 5), ("B", 4), ("C", 3), ("D", 2), ("E", 1)] {
        for _ in 0..reports {
            actions.push(confirmed(id, user, ActionType::ReportBug));
            id += 1;
        }
    }
    let lines = rank(&actions, None, &None, 5);
    let markers: Vec<RankMarker> = lines.iter().map(|l| l.marker()).collect();
    assert_eq!(
        markers,
        vec![
            RankMarker::Gold,
            RankMarker::Silver,
            RankMarker::Bronze,
            RankMarker::Numbered(4),
            RankMarker::Numbered(5),
        ]
    );
}

#[test]
fn general_view_composes_four_boards() {
    let actions = vec![confirmed(1, "A", ActionType::ReportBug)];
    let sections = leaderboard_sections(&actions, None, &None);
    assert_eq!(sections.len(), 4);
    assert_eq!(sections[0].category, Some(ActionType::ConfirmBug));
    assert_eq!(sections[1].category, Some(ActionType::ReportBug));
    assert_eq!(sections[2].category, Some(ActionType::PRFix));
    assert_eq!(sections[3].category, None);
    assert_eq!(sections[1].lines.len(), 1);
    assert_eq!(sections[1].lines[0].value, 1);
    assert_eq!(sections[3].lines[0].value, 3);
}

#[test]
fn category_view_is_a_single_board() {
    let actions = vec![confirmed(1, "A", ActionType::PRFix)];
    let sections = leaderboard_sections(&actions, Some(ActionType::PRFix), &None);
    assert_eq!(sections.len(), 1);
    assert_eq!(sections[0].category, Some(ActionType::PRFix));
    assert_eq!(sections[0].lines[0].value, 1);
}

#[test]
fn standings_list_every_participant_once() {
    let actions = vec![
        confirmed(1, "A", ActionType::ReportBug),
        confirmed(2, "B", ActionType::ConfirmBug),
        confirmed(3, "A", ActionType::PRFix),
        record(4, "C", ActionType::ReportBug, ActionStatus::Pending),
    ];
    let st = standings(&actions, None);
    assert_eq!(st.len(), 2);
    assert_eq!(st[0].user_id, "A");
    assert_eq!(st[0].value, 8);
    assert_eq!(st[1].user_id, "B");
    assert_eq!(st[1].value, 1);
}
