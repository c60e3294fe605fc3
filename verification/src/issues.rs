//! The reference parser: extracts a structured identifier (issue number,
//! optional comment number) from a free-text URL.
//!
//! Two shapes are accepted, searched anywhere in the string, first match wins:
//!  1. an issue URL with a comment anchor
//!     (`http(s)://github.com/rh-hideout/pokeemerald-expansion/issues/<n>#issuecomment-<m>`),
//!     tried over the whole string first;
//!  2. a bare issue or pull-request URL
//!     (`.../issues/<n>` or `.../pull/<n>`).
//!
//! Parsing is pure and total: absence is the only negative outcome. A numeric
//! field whose decimal value does not fit in `u64` cannot name a tracker
//! object and is not accepted as a match; the search then continues to the
//! right.

use vstd::prelude::*;
use vstd::string::StrSliceExecFns;

verus! {

/// A parsed reference: an issue number and, for confirmation-type references,
/// the comment number.
#[derive(Clone, Copy, PartialEq, Eq, Debug, Structural)]
pub struct IssueIds {
    pub issue_id: u64,
    pub comment_id: Option<u64>,
}

pub open spec fn spec_is_digit(c: char) -> bool {
    48 <= (c as u32) && (c as u32) <= 57
}

pub open spec fn spec_digit_val(c: char) -> int {
    (c as u32) - 48
}

/// The literal `lit` occurs in `s` starting at index `i`.
pub open spec fn spec_lit_at(s: Seq<char>, i: int, lit: Seq<char>) -> bool {
    &&& 0 <= i
    &&& i + lit.len() <= s.len()
    &&& forall|k: int| 0 <= k < lit.len() ==> s[i + k] == lit[k]
}

/// End of the maximal run of decimal digits starting at `i`.
pub open spec fn spec_digit_run_end(s: Seq<char>, i: int) -> int
    decreases s.len() - i,
{
    if 0 <= i < s.len() && spec_is_digit(s[i]) {
        spec_digit_run_end(s, i + 1)
    } else {
        i
    }
}

/// Decimal value of the digit run `s[i..j]`.
pub open spec fn spec_digits_val(s: Seq<char>, i: int, j: int) -> int
    decreases j - i,
{
    if i >= j {
        0
    } else {
        spec_digits_val(s, i, j - 1) * 10 + spec_digit_val(s[j - 1])
    }
}

/// Index just past the URL scheme when the scheme starts at `i`: the optional
/// `s` of `https` is consumed exactly when it is present.
pub open spec fn spec_after_scheme(s: Seq<char>, i: int) -> int {
    if i + 4 < s.len() && s[i + 4] == 's' {
        i + 5
    } else {
        i + 4
    }
}

/// `http` or `https`, then the tracker host and repository path, at `i`.
pub open spec fn spec_head_at(s: Seq<char>, i: int) -> bool {
    &&& spec_lit_at(s, i, "http"@)
    &&& spec_lit_at(
        s,
        spec_after_scheme(s, i),
        "://github.com/rh-hideout/pokeemerald-expansion/"@,
    )
}

/// Index of the path segment (`issues/...` or `pull/...`) of a head at `i`.
pub open spec fn spec_path_start(s: Seq<char>, i: int) -> int {
    spec_after_scheme(s, i) + "://github.com/rh-hideout/pokeemerald-expansion/"@.len()
}

/// Shape of a comment-anchored issue URL starting at `i`: head, `issues/`,
/// a nonempty digit run, `#issuecomment-`, a nonempty digit run.
pub open spec fn spec_comment_shape_at(s: Seq<char>, i: int) -> bool {
    &&& spec_head_at(s, i)
    &&& spec_lit_at(s, spec_path_start(s, i), "issues/"@)
    &&& {
        let d0 = spec_path_start(s, i) + "issues/"@.len();
        let d1 = spec_digit_run_end(s, d0);
        &&& d1 > d0
        &&& spec_lit_at(s, d1, "#issuecomment-"@)
        &&& spec_digit_run_end(s, d1 + "#issuecomment-"@.len()) > d1 + "#issuecomment-"@.len()
    }
}

/// Issue number of a comment-shaped match at `i`.
pub open spec fn spec_comment_issue_val(s: Seq<char>, i: int) -> int {
    let d0 = spec_path_start(s, i) + "issues/"@.len();
    spec_digits_val(s, d0, spec_digit_run_end(s, d0))
}

/// Comment number of a comment-shaped match at `i`.
pub open spec fn spec_comment_comment_val(s: Seq<char>, i: int) -> int {
    let d0 = spec_path_start(s, i) + "issues/"@.len();
    let c0 = spec_digit_run_end(s, d0) + "#issuecomment-"@.len();
    spec_digits_val(s, c0, spec_digit_run_end(s, c0))
}

/// A comment-anchored match at `i` whose numbers name representable tracker
/// objects.
pub open spec fn spec_comment_match_at(s: Seq<char>, i: int) -> bool {
    &&& spec_comment_shape_at(s, i)
    &&& spec_comment_issue_val(s, i) <= u64::MAX
    &&& spec_comment_comment_val(s, i) <= u64::MAX
}

/// Shape of a bare issue or pull-request URL starting at `i`: head, then
/// `issues/` or `pull/`, then a nonempty digit run.
pub open spec fn spec_issue_shape_at(s: Seq<char>, i: int) -> bool {
    &&& spec_head_at(s, i)
    &&& {
        let p = spec_path_start(s, i);
        ||| (spec_lit_at(s, p, "issues/"@) && spec_digit_run_end(s, p + "issues/"@.len()) > p
            + "issues/"@.len())
        ||| (spec_lit_at(s, p, "pull/"@) && spec_digit_run_end(s, p + "pull/"@.len()) > p
            + "pull/"@.len())
    }
}

/// Start of the digit run of an issue-shaped match at `i`.
pub open spec fn spec_issue_digits_start(s: Seq<char>, i: int) -> int {
    let p = spec_path_start(s, i);
    if spec_lit_at(s, p, "issues/"@) {
        p + "issues/"@.len()
    } else {
        p + "pull/"@.len()
    }
}

/// Issue number of an issue-shaped match at `i`.
pub open spec fn spec_issue_val(s: Seq<char>, i: int) -> int {
    let d0 = spec_issue_digits_start(s, i);
    spec_digits_val(s, d0, spec_digit_run_end(s, d0))
}

/// A bare issue or pull-request match at `i` with a representable number.
pub open spec fn spec_issue_match_at(s: Seq<char>, i: int) -> bool {
    &&& spec_issue_shape_at(s, i)
    &&& spec_issue_val(s, i) <= u64::MAX
}

pub open spec fn spec_has_comment_match(s: Seq<char>) -> bool {
    exists|i: int| 0 <= i < s.len() && #[trigger] spec_comment_match_at(s, i)
}

pub open spec fn spec_has_issue_match(s: Seq<char>) -> bool {
    exists|i: int| 0 <= i < s.len() && #[trigger] spec_issue_match_at(s, i)
}

/// What `from_url` returns: the comment shape takes priority over the bare
/// shape, and within one shape the leftmost match wins.
pub open spec fn spec_from_url_post(s: Seq<char>, r: Option<IssueIds>) -> bool {
    if spec_has_comment_match(s) {
        exists|i: int|
            {
                &&& 0 <= i < s.len()
                &&& #[trigger] spec_comment_match_at(s, i)
                &&& forall|j: int| 0 <= j < i ==> !#[trigger] spec_comment_match_at(s, j)
                &&& r == Some(
                    IssueIds {
                        issue_id: spec_comment_issue_val(s, i) as u64,
                        comment_id: Some(spec_comment_comment_val(s, i) as u64),
                    },
                )
            }
    } else if spec_has_issue_match(s) {
        exists|i: int|
            {
                &&& 0 <= i < s.len()
                &&& #[trigger] spec_issue_match_at(s, i)
                &&& forall|j: int| 0 <= j < i ==> !#[trigger] spec_issue_match_at(s, j)
                &&& r == Some(
                    IssueIds { issue_id: spec_issue_val(s, i) as u64, comment_id: None },
                )
            }
    } else {
        r is None
    }
}

/// True exactly when the literal occurs in `s` at `i`.
fn match_lit_at(s: &str, i: usize, lit: &str) -> (b: bool)
    requires
        i <= s@.len(),
    ensures
        b == spec_lit_at(s@, i as int, lit@),
{
    let n = s.unicode_len();
    let m = lit.unicode_len();
    if n - i < m {
        return false;
    }
    let mut k: usize = 0;
    while k < m
        invariant
            0 <= k <= m,
            i + m <= n,
            n == s@.len(),
            m == lit@.len(),
            forall|j: int| 0 <= j < k ==> s@[i + j] == lit@[j],
        decreases m - k,
    {
        if s.get_char(i + k) != lit.get_char(k) {
            return false;
        }
        k += 1;
    }
    true
}

fn is_digit(c: char) -> (b: bool)
    ensures
        b == spec_is_digit(c),
{
    let u = c as u32;
    48 <= u && u <= 57
}

/// End of the maximal digit run starting at `i`.
fn digit_run_end(s: &str, i: usize) -> (e: usize)
    requires
        i <= s@.len(),
    ensures
        i <= e <= s@.len(),
        e == spec_digit_run_end(s@, i as int),
{
    let n = s.unicode_len();
    let mut e = i;
    while e < n && is_digit(s.get_char(e))
        invariant
            i <= e <= n,
            n == s@.len(),
            spec_digit_run_end(s@, i as int) == spec_digit_run_end(s@, e as int),
        decreases n - e,
    {
        e += 1;
    }
    e
}

/// Each added digit can only grow the value.
proof fn lemma_digits_val_monotone(s: Seq<char>, i: int, j: int, k: int)
    requires
        i <= j <= k,
        forall|m: int| i <= m < k ==> 0 <= #[trigger] spec_digit_val(s[m]),
    ensures
        0 <= spec_digits_val(s, i, j) <= spec_digits_val(s, i, k),
    decreases k - j,
{
    if j == k {
        lemma_digits_val_nonneg(s, i, j);
    } else {
        lemma_digits_val_monotone(s, i, j, k - 1);
    }
}

/// A digit run ends within the string and holds digits only.
proof fn lemma_digit_run_digits(s: Seq<char>, i: int)
    requires
        0 <= i <= s.len(),
    ensures
        i <= spec_digit_run_end(s, i) <= s.len(),
        forall|m: int| i <= m < spec_digit_run_end(s, i) ==> spec_is_digit(s[m]),
    decreases s.len() - i,
{
    if i < s.len() && spec_is_digit(s[i]) {
        lemma_digit_run_digits(s, i + 1);
    }
}

proof fn lemma_digits_val_nonneg(s: Seq<char>, i: int, j: int)
    requires
        forall|m: int| i <= m < j ==> 0 <= #[trigger] spec_digit_val(s[m]),
    ensures
        0 <= spec_digits_val(s, i, j),
    decreases j - i,
{
    if i < j {
        lemma_digits_val_nonneg(s, i, j - 1);
    }
}

/// Reads the digit run `s[i..j]` as a decimal `u64`; `None` exactly when the
/// value does not fit.
fn parse_digits(s: &str, i: usize, j: usize) -> (r: Option<u64>)
    requires
        i <= j <= s@.len(),
        forall|m: int| i <= m < j ==> spec_is_digit(s@[m]),
    ensures
        match r {
            Some(v) => v == spec_digits_val(s@, i as int, j as int),
            None => spec_digits_val(s@, i as int, j as int) > u64::MAX,
        },
{
    let mut acc: u64 = 0;
    let mut k = i;
    while k < j
        invariant
            i <= k <= j <= s@.len(),
            forall|m: int| i <= m < j ==> spec_is_digit(s@[m]),
            acc == spec_digits_val(s@, i as int, k as int),
        decreases j - k,
    {
        let d = (s.get_char(k) as u32 - 48) as u64;
        if acc > (u64::MAX - d) / 10 {
            proof {
                assert(acc * 10 + d > u64::MAX) by (nonlinear_arith)
                    requires
                        acc > (u64::MAX - d) / 10,
                        d <= 9,
                ;
                assert(spec_digits_val(s@, i as int, k + 1) == acc * 10 + d);
                assert(forall|m: int| i <= m < j ==> 0 <= #[trigger] spec_digit_val(s@[m]));
                lemma_digits_val_monotone(s@, i as int, k + 1, j as int);
            }
            return None;
        }
        proof {
            assert(acc * 10 + d <= u64::MAX) by (nonlinear_arith)
                requires
                    acc <= (u64::MAX - d) / 10,
                    d <= 9,
            ;
        }
        acc = acc * 10 + d;
        k += 1;
    }
    Some(acc)
}

/// Tries the comment-anchored shape at position `i`, returning the issue and
/// comment numbers of a match.
fn comment_match_at(s: &str, i: usize) -> (r: Option<(u64, u64)>)
    requires
        i <= s@.len(),
    ensures
        match r {
            Some(v) => {
                &&& spec_comment_match_at(s@, i as int)
                &&& v.0 == spec_comment_issue_val(s@, i as int)
                &&& v.1 == spec_comment_comment_val(s@, i as int)
            },
            None => !spec_comment_match_at(s@, i as int),
        },
{
    proof {
        reveal_strlit("http");
        reveal_strlit("://github.com/rh-hideout/pokeemerald-expansion/");
        reveal_strlit("issues/");
        reveal_strlit("#issuecomment-");
    }
    let n = s.unicode_len();
    if !match_lit_at(s, i, "http") {
        return None;
    }
    let a = if n - i > 4 && s.get_char(i + 4) == 's' {
        i + 5
    } else {
        i + 4
    };
    let host = "://github.com/rh-hideout/pokeemerald-expansion/";
    if !match_lit_at(s, a, host) {
        return None;
    }
    let p = a + host.unicode_len();
    if !match_lit_at(s, p, "issues/") {
        return None;
    }
    let d0 = p + "issues/".unicode_len();
    let d1 = digit_run_end(s, d0);
    if d1 == d0 {
        return None;
    }
    let anchor = "#issuecomment-";
    if !match_lit_at(s, d1, anchor) {
        return None;
    }
    let c0 = d1 + anchor.unicode_len();
    let c1 = digit_run_end(s, c0);
    if c1 == c0 {
        return None;
    }
    proof {
        lemma_digit_run_digits(s@, d0 as int);
        lemma_digit_run_digits(s@, c0 as int);
    }
    let issue_val = match parse_digits(s, d0, d1) {
        Some(v) => v,
        None => {
            return None;
        },
    };
    let comment_val = match parse_digits(s, c0, c1) {
        Some(v) => v,
        None => {
            return None;
        },
    };
    Some((issue_val, comment_val))
}

/// Tries the bare issue or pull-request shape at position `i`, returning the
/// issue number of a match.
fn issue_match_at(s: &str, i: usize) -> (r: Option<u64>)
    requires
        i <= s@.len(),
    ensures
        match r {
            Some(v) => {
                &&& spec_issue_match_at(s@, i as int)
                &&& v == spec_issue_val(s@, i as int)
            },
            None => !spec_issue_match_at(s@, i as int),
        },
{
    proof {
        reveal_strlit("http");
        reveal_strlit("://github.com/rh-hideout/pokeemerald-expansion/");
        reveal_strlit("issues/");
        reveal_strlit("pull/");
    }
    let n = s.unicode_len();
    if !match_lit_at(s, i, "http") {
        return None;
    }
    let a = if n - i > 4 && s.get_char(i + 4) == 's' {
        i + 5
    } else {
        i + 4
    };
    let host = "://github.com/rh-hideout/pokeemerald-expansion/";
    if !match_lit_at(s, a, host) {
        return None;
    }
    let p = a + host.unicode_len();
    let d0 = if match_lit_at(s, p, "issues/") {
        p + "issues/".unicode_len()
    } else if match_lit_at(s, p, "pull/") {
        p + "pull/".unicode_len()
    } else {
        return None;
    };
    let d1 = digit_run_end(s, d0);
    if d1 == d0 {
        proof {
            if spec_lit_at(s@, p as int, "issues/"@) && spec_lit_at(s@, p as int, "pull/"@) {
                assert(s@[p as int + 0] == "issues/"@[0]);
                assert(s@[p as int + 0] == "pull/"@[0]);
            }
        }
        return None;
    }
    proof {
        lemma_digit_run_digits(s@, d0 as int);
    }
    match parse_digits(s, d0, d1) {
        Some(v) => Some(v),
        None => None,
    }
}

impl IssueIds {
    /// Extracts a reference from a free-text URL; `None` when neither shape
    /// occurs anywhere in the string.
    pub fn from_url(url: &str) -> (r: Option<IssueIds>)
        ensures
            spec_from_url_post(url@, r),
    {
        let n = url.unicode_len();
        let mut i: usize = 0;
        while i < n
            invariant
                0 <= i <= n,
                n == url@.len(),
                forall|j: int| 0 <= j < i ==> !#[trigger] spec_comment_match_at(url@, j),
            decreases n - i,
        {
            if let Some(v) = comment_match_at(url, i) {
                return Some(IssueIds { issue_id: v.0, comment_id: Some(v.1) });
            }
            i += 1;
        }
        let mut i: usize = 0;
        while i < n
            invariant
                0 <= i <= n,
                n == url@.len(),
                !spec_has_comment_match(url@),
                forall|j: int| 0 <= j < i ==> !#[trigger] spec_issue_match_at(url@, j),
            decreases n - i,
        {
            if let Some(v) = issue_match_at(url, i) {
                return Some(IssueIds { issue_id: v, comment_id: None });
            }
            i += 1;
        }
        None
    }
}

} // verus!
