use caterpie::issues::IssueIds;

#[test]
fn parses_bare_issue_url() {
    let r = IssueIds::from_url("https://github.com/rh-hideout/pokeemerald-expansion/issues/42")
        .expect("reference expected");
    assert_eq!(r.issue_id, 42);
    assert_eq!(r.comment_id, None);
}

#[test]
fn parses_comment_anchor_url() {
    let r = IssueIds::from_url(
        "https://github.com/rh-hideout/pokeemerald-expansion/issues/42#issuecomment-99",
    )
    .expect("reference expected");
    assert_eq!(r.issue_id, 42);
    assert_eq!(r.comment_id, Some(99));
}

#[test]
fn rejects_plain_text() {
    assert!(IssueIds::from_url("not a url").is_none());
}

#[test]
fn parses_pull_request_url() {
    let r = IssueIds::from_url("https://github.com/rh-hideout/pokeemerald-expansion/pull/123")
        .expect("reference expected");
    assert_eq!(r.issue_id, 123);
    assert_eq!(r.comment_id, None);
}

#[test]
fn parses_http_scheme() {
    let r = IssueIds::from_url("http://github.com/rh-hideout/pokeemerald-expansion/issues/7")
        .expect("reference expected");
    assert_eq!(r.issue_id, 7);
    assert_eq!(r.comment_id, None);
}

#[test]
fn finds_reference_inside_text() {
    let r = IssueIds::from_url(
        "see https://github.com/rh-hideout/pokeemerald-expansion/issues/8 please",
    )
    .expect("reference expected");
    assert_eq!(r.issue_id, 8);
    assert_eq!(r.comment_id, None);
}

#[test]
fn comment_shape_takes_priority() {
    // The bare shape also matches the front of this string; the comment
    // shape must win.
    let r = IssueIds::from_url(
        "https://github.com/rh-hideout/pokeemerald-expansion/issues/5#issuecomment-6",
    )
    .expect("reference expected");
    assert_eq!(r.comment_id, Some(6));
}

#[test]
fn empty_comment_number_falls_back_to_issue() {
    let r = IssueIds::from_url(
        "https://github.com/rh-hideout/pokeemerald-expansion/issues/42#issuecomment-",
    )
    .expect("reference expected");
    assert_eq!(r.issue_id, 42);
    assert_eq!(r.comment_id, None);
}

#[test]
fn rejects_wrong_repository() {
    assert!(IssueIds::from_url("https://github.com/other/repo/issues/42").is_none());
}

#[test]
fn rejects_missing_issue_number() {
    assert!(
        IssueIds::from_url("https://github.com/rh-hideout/pokeemerald-expansion/issues/").is_none()
    );
}

#[test]
fn rejects_unrepresentable_issue_number() {
    assert!(IssueIds::from_url(
        "https://github.com/rh-hideout/pokeemerald-expansion/issues/99999999999999999999999999"
    )
    .is_none());
}

#[test]
fn later_reference_wins_over_unrepresentable_one() {
    let r = IssueIds::from_url(
        "https://github.com/rh-hideout/pokeemerald-expansion/issues/99999999999999999999999999 \
         and https://github.com/rh-hideout/pokeemerald-expansion/issues/13",
    )
    .expect("reference expected");
    assert_eq!(r.issue_id, 13);
    assert_eq!(r.comment_id, None);
}

#[test]
fn leftmost_reference_wins() {
    let r = IssueIds::from_url(
        "https://github.com/rh-hideout/pokeemerald-expansion/issues/1 then \
         https://github.com/rh-hideout/pokeemerald-expansion/issues/2",
    )
    .expect("reference expected");
    assert_eq!(r.issue_id, 1);
}
