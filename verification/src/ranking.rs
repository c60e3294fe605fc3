//! The scoring and ranking engine: a pure function from the set of persisted
//! action records to per-user aggregate scores and ordered leaderboards, with
//! optional "ensure this user is visible" behaviour.
//!
//! Only records a moderator has confirmed count toward scores. A still
//! pending or denied claim contributing to the public leaderboard would let
//! unverified evidence earn points, so leaving those out is a deliberate
//! behavioural choice of this engine.
//!
//! Ties on a metric are broken deterministically: the user whose first
//! counted record is older ranks higher.

use vstd::prelude::*;

use crate::actions::ActionStatus;
use crate::actions::ActionType;
use crate::actions::Model;
use crate::score::Score;

verus! {

/// Record `m` counts for `user` under type `t`.
pub open spec fn spec_counted(m: Model, user: Seq<char>, t: ActionType) -> bool {
    m.user_id@ == user && m.action_type == t && m.action_status is Confirmed
}

/// Record `m` counts for `user` under some type.
pub open spec fn spec_counted_any(m: Model, user: Seq<char>) -> bool {
    m.user_id@ == user && m.action_status is Confirmed
}

/// How many of the first `n` records count for `user` under type `t`.
pub open spec fn spec_count_upto(actions: Seq<Model>, n: int, user: Seq<char>, t: ActionType) -> int
    decreases n,
{
    if n <= 0 {
        0
    } else {
        spec_count_upto(actions, n - 1, user, t) + if spec_counted(actions[n - 1], user, t) {
            1int
        } else {
            0int
        }
    }
}

/// How many records count for `user` under type `t`.
pub open spec fn spec_count(actions: Seq<Model>, user: Seq<char>, t: ActionType) -> int {
    spec_count_upto(actions, actions.len() as int, user, t)
}

/// The user has at least one counted record.
pub open spec fn spec_is_participant(actions: Seq<Model>, user: Seq<char>) -> bool {
    exists|i: int| 0 <= i < actions.len() && spec_counted_any(#[trigger] actions[i], user)
}

/// The sort metric: the matching counter for a category view, the weighted
/// point total for the general view.
pub open spec fn spec_metric(actions: Seq<Model>, user: Seq<char>, category: Option<ActionType>) -> int {
    match category {
        Some(t) => spec_count(actions, user, t),
        None => spec_count(actions, user, ActionType::ConfirmBug) + 3 * spec_count(
            actions,
            user,
            ActionType::ReportBug,
        ) + 5 * spec_count(actions, user, ActionType::PRFix),
    }
}

proof fn lemma_count_upto_bounds(actions: Seq<Model>, n: int, user: Seq<char>, t: ActionType)
    requires
        0 <= n,
    ensures
        0 <= spec_count_upto(actions, n, user, t) <= n,
    decreases n,
{
    if n > 0 {
        lemma_count_upto_bounds(actions, n - 1, user, t);
    }
}

/// A user with no counted record among the first `n` has count zero there.
proof fn lemma_count_upto_zero(actions: Seq<Model>, n: int, user: Seq<char>, t: ActionType)
    requires
        forall|j: int| 0 <= j < n ==> !spec_counted_any(#[trigger] actions[j], user),
    ensures
        spec_count_upto(actions, n, user, t) == 0,
    decreases n,
{
    if n > 0 {
        lemma_count_upto_zero(actions, n - 1, user, t);
    }
}

/// One user's aggregate standing: the score, and the index of the user's
/// oldest counted record, which serves as the deterministic tie key.
pub struct Standing {
    pub user_id: String,
    pub score: Score,
    pub first_seen: usize,
}

/// `r` is the per-user aggregation of the first `n` records: one entry per
/// participant, in order of first counted appearance, with exact counters.
pub open spec fn spec_agg_ok(actions: Seq<Model>, n: int, r: Seq<Standing>) -> bool {
    &&& forall|a: int, b: int|
        0 <= a < b < r.len() ==> #[trigger] r[a].first_seen < #[trigger] r[b].first_seen
    &&& forall|a: int, b: int|
        0 <= a < b < r.len() ==> #[trigger] r[a].user_id@ != #[trigger] r[b].user_id@
    &&& forall|k: int|
        0 <= k < r.len() ==> 0 <= #[trigger] r[k].first_seen < n && spec_counted_any(
            actions[r[k].first_seen as int],
            r[k].user_id@,
        )
    &&& forall|k: int, j: int|
        0 <= k < r.len() && 0 <= j < r[k].first_seen ==> !spec_counted_any(
            #[trigger] actions[j],
            #[trigger] r[k].user_id@,
        )
    &&& forall|k: int|
        0 <= k < r.len() ==> #[trigger] r[k].score.bug_confirm == spec_count_upto(
            actions,
            n,
            r[k].user_id@,
            ActionType::ConfirmBug,
        )
    &&& forall|k: int|
        0 <= k < r.len() ==> #[trigger] r[k].score.bug_report == spec_count_upto(
            actions,
            n,
            r[k].user_id@,
            ActionType::ReportBug,
        )
    &&& forall|k: int|
        0 <= k < r.len() ==> #[trigger] r[k].score.pr_fix == spec_count_upto(
            actions,
            n,
            r[k].user_id@,
            ActionType::PRFix,
        )
    &&& forall|i: int|
        0 <= i < n && (#[trigger] actions[i].action_status) is Confirmed ==> exists|k: int|
            0 <= k < r.len() && #[trigger] r[k].user_id@ == actions[i].user_id@
}

/// Index of the entry for `user` in `r`, if any.
fn find_user(r: &Vec<Standing>, user: &String) -> (res: Option<usize>)
    ensures
        match res {
            Some(k) => k < r@.len() && r@[k as int].user_id@ == user@,
            None => forall|k: int| 0 <= k < r@.len() ==> #[trigger] r@[k].user_id@ != user@,
        },
{
    let mut k: usize = 0;
    while k < r.len()
        invariant
            0 <= k <= r@.len(),
            forall|j: int| 0 <= j < k ==> #[trigger] r@[j].user_id@ != user@,
        decreases r@.len() - k,
    {
        if r[k].user_id.eq(user) {
            return Some(k);
        }
        k += 1;
    }
    None
}

/// Aggregates every counted record into per-user scores, one entry per
/// participant in order of first counted appearance.
pub fn aggregate(actions: &Vec<Model>) -> (r: Vec<Standing>)
    ensures
        spec_agg_ok(actions@, actions@.len() as int, r@),
        r@.len() <= actions@.len(),
{
    let mut r: Vec<Standing> = Vec::new();
    let mut i: usize = 0;
    while i < actions.len()
        invariant
            0 <= i <= actions@.len(),
            r@.len() <= i,
            spec_agg_ok(actions@, i as int, r@),
        decreases actions@.len() - i,
    {
        let ghost prev = r@;
        let counted = match actions[i].action_status {
            ActionStatus::Confirmed => true,
            _ => false,
        };
        if counted {
            match find_user(&r, &actions[i].user_id) {
                Some(k) => {
                    proof {
                        lemma_count_upto_bounds(
                            actions@,
                            i as int,
                            r@[k as int].user_id@,
                            actions@[i as int].action_type,
                        );
                    }
                    match actions[i].action_type {
                        ActionType::ConfirmBug => {
                            let c = r[k].score.bug_confirm;
                            r[k].score.bug_confirm = c + 1;
                        },
                        ActionType::ReportBug => {
                            let c = r[k].score.bug_report;
                            r[k].score.bug_report = c + 1;
                        },
                        ActionType::PRFix => {
                            let c = r[k].score.pr_fix;
                            r[k].score.pr_fix = c + 1;
                        },
                    }
                    proof {
                        assert(forall|kk: int|
                            0 <= kk < prev.len() ==> #[trigger] r@[kk].user_id@ == prev[kk].user_id@
                                && r@[kk].first_seen == prev[kk].first_seen);
                        assert(r@[k as int].user_id@ == actions@[i as int].user_id@);
                    }
                },
                None => {
                    proof {
                        lemma_count_upto_zero(
                            actions@,
                            i as int,
                            actions@[i as int].user_id@,
                            ActionType::ConfirmBug,
                        );
                        lemma_count_upto_zero(
                            actions@,
                            i as int,
                            actions@[i as int].user_id@,
                            ActionType::ReportBug,
                        );
                        lemma_count_upto_zero(
                            actions@,
                            i as int,
                            actions@[i as int].user_id@,
                            ActionType::PRFix,
                        );
                    }
                    let mut sc = Score::zero();
                    match actions[i].action_type {
                        ActionType::ConfirmBug => {
                            sc.bug_confirm = 1;
                        },
                        ActionType::ReportBug => {
                            sc.bug_report = 1;
                        },
                        ActionType::PRFix => {
                            sc.pr_fix = 1;
                        },
                    }
                    r.push(Standing { user_id: actions[i].user_id.clone(), score: sc, first_seen: i });
                    proof {
                        assert(forall|kk: int|
                            0 <= kk < prev.len() ==> #[trigger] r@[kk].user_id@ == prev[kk].user_id@
                                && r@[kk].first_seen == prev[kk].first_seen);
                        assert(r@[r@.len() - 1].user_id@ == actions@[i as int].user_id@);
                    }
                },
            }
        }
        proof {
            assert forall|ii: int|
                0 <= ii < i + 1 && (#[trigger] actions@[ii].action_status) is Confirmed implies exists|k: int|
                0 <= k < r@.len() && #[trigger] r@[k].user_id@ == actions@[ii].user_id@ by {
                if ii < i {
                    let k0 = choose|k: int|
                        0 <= k < prev.len() && #[trigger] prev[k].user_id@ == actions@[ii].user_id@;
                    assert(r@[k0].user_id@ == actions@[ii].user_id@);
                }
            }
        }
        i += 1;
    }
    r
}

/// One leaderboard entry: a user, the metric value the board is sorted by,
/// and the index of the user's oldest counted record (the tie key).
pub struct RankedUser {
    pub user_id: String,
    pub value: u64,
    pub first_seen: usize,
}

/// Strict ranking order: the higher metric first, the older first record
/// breaking ties.
pub open spec fn spec_before(a: RankedUser, b: RankedUser) -> bool {
    a.value > b.value || (a.value == b.value && a.first_seen < b.first_seen)
}

pub open spec fn spec_sorted(s: Seq<RankedUser>) -> bool {
    forall|i: int, j: int| 0 <= i < j < s.len() ==> spec_before(#[trigger] s[i], #[trigger] s[j])
}

fn before(a: &RankedUser, b: &RankedUser) -> (r: bool)
    ensures
        r == spec_before(*a, *b),
{
    a.value > b.value || (a.value == b.value && a.first_seen < b.first_seen)
}

proof fn lemma_before_total(a: RankedUser, b: RankedUser)
    requires
        a.first_seen != b.first_seen,
    ensures
        spec_before(a, b) || spec_before(b, a),
{
}

proof fn lemma_before_trans(a: RankedUser, b: RankedUser, c: RankedUser)
    requires
        spec_before(a, b),
        spec_before(b, c),
    ensures
        spec_before(a, c),
{
}

/// `e` occurs in `s[lo..hi]`.
pub open spec fn spec_among(e: RankedUser, s: Seq<RankedUser>, lo: int, hi: int) -> bool {
    exists|j: int| lo <= j < hi && #[trigger] s[j] == e
}

/// The entry about to be inserted differs in tie key from everything already
/// placed.
proof fn lemma_pending_distinct(input0: Seq<RankedUser>, oldout: Seq<RankedUser>, rem: int)
    requires
        1 <= rem <= input0.len(),
        forall|a: int, b: int|
            0 <= a < b < input0.len() ==> #[trigger] input0[a].first_seen
                != #[trigger] input0[b].first_seen,
        forall|k: int|
            0 <= k < oldout.len() ==> #[trigger] spec_among(oldout[k], input0, rem, input0.len() as int),
    ensures
        forall|k: int|
            0 <= k < oldout.len() ==> #[trigger] oldout[k].first_seen != input0[rem - 1].first_seen,
{
    assert forall|k: int| 0 <= k < oldout.len() implies #[trigger] oldout[k].first_seen
        != input0[rem - 1].first_seen by {
        assert(spec_among(oldout[k], input0, rem, input0.len() as int));
        let j0 = choose|j: int| rem <= j < input0.len() && #[trigger] input0[j] == oldout[k];
        assert(input0[rem - 1].first_seen != input0[j0].first_seen);
    }
}

/// Inserting the next entry extends the two membership maps by one.
proof fn lemma_insert_members(
    input0: Seq<RankedUser>,
    oldout: Seq<RankedUser>,
    newout: Seq<RankedUser>,
    rem: int,
    pos: int,
)
    requires
        1 <= rem <= input0.len(),
        0 <= pos <= oldout.len(),
        newout == oldout.insert(pos, input0[rem - 1]),
        forall|k: int|
            0 <= k < oldout.len() ==> #[trigger] spec_among(oldout[k], input0, rem, input0.len() as int),
        forall|j: int|
            rem <= j < input0.len() ==> #[trigger] spec_among(
                input0[j],
                oldout,
                0,
                oldout.len() as int,
            ),
    ensures
        forall|k: int|
            0 <= k < newout.len() ==> #[trigger] spec_among(
                newout[k],
                input0,
                rem - 1,
                input0.len() as int,
            ),
        forall|j: int|
            rem - 1 <= j < input0.len() ==> #[trigger] spec_among(
                input0[j],
                newout,
                0,
                newout.len() as int,
            ),
{
    let e = input0[rem - 1];
    assert(newout.len() == oldout.len() + 1);
    assert(forall|x: int| 0 <= x < pos ==> #[trigger] newout[x] == oldout[x]);
    assert(newout[pos] == e);
    assert(forall|x: int| pos < x < newout.len() ==> #[trigger] newout[x] == oldout[x - 1]);
    assert forall|k: int| 0 <= k < newout.len() implies #[trigger] spec_among(
        newout[k],
        input0,
        rem - 1,
        input0.len() as int,
    ) by {
        if k < pos {
            assert(spec_among(oldout[k], input0, rem, input0.len() as int));
            let j0 = choose|j: int| rem <= j < input0.len() && #[trigger] input0[j] == oldout[k];
            assert(newout[k] == input0[j0]);
        } else if k == pos {
            assert(newout[k] == input0[rem - 1]);
        } else {
            assert(spec_among(oldout[k - 1], input0, rem, input0.len() as int));
            let j0 = choose|j: int|
                rem <= j < input0.len() && #[trigger] input0[j] == oldout[k - 1];
            assert(newout[k] == input0[j0]);
        }
    }
    assert forall|j: int| rem - 1 <= j < input0.len() implies #[trigger] spec_among(
        input0[j],
        newout,
        0,
        newout.len() as int,
    ) by {
        if j == rem - 1 {
            assert(newout[pos] == input0[j]);
        } else {
            assert(spec_among(input0[j], oldout, 0, oldout.len() as int));
            let k0 = choose|k: int| 0 <= k < oldout.len() && #[trigger] oldout[k] == input0[j];
            if k0 < pos {
                assert(newout[k0] == input0[j]);
            } else {
                assert(newout[k0 + 1] == input0[j]);
            }
        }
    }
}

/// Inserts one entry into a sorted vector, keeping it sorted.
#[verifier::rlimit(100)]
fn insert_sorted(out: &mut Vec<RankedUser>, e: RankedUser)
    requires
        spec_sorted(old(out)@),
        forall|k: int|
            0 <= k < old(out)@.len() ==> #[trigger] old(out)@[k].first_seen != e.first_seen,
    ensures
        spec_sorted(final(out)@),
        exists|pos: int|
            #![trigger old(out)@.insert(pos, e)]
            0 <= pos <= old(out)@.len() && final(out)@ == old(out)@.insert(pos, e),
{
    let ghost oldout = out@;
    let mut pos: usize = 0;
    while pos < out.len() && !before(&e, &out[pos])
        invariant
            0 <= pos <= out@.len(),
            out@ == oldout,
            forall|x: int| 0 <= x < pos ==> !spec_before(e, #[trigger] out@[x]),
        decreases out@.len() - pos,
    {
        pos += 1;
    }
    proof {
        assert(pos == oldout.len() || spec_before(e, oldout[pos as int]));
    }
    out.insert(pos, e);
    proof {
        assert(out@ == oldout.insert(pos as int, e));
        assert(forall|x: int| 0 <= x < pos ==> #[trigger] out@[x] == oldout[x]);
        assert(out@[pos as int] == e);
        assert(forall|x: int| pos < x < out@.len() ==> #[trigger] out@[x] == oldout[x - 1]);
        assert forall|x: int, y: int| 0 <= x < y < out@.len() implies spec_before(
            out@[x],
            out@[y],
        ) by {
            if y < pos {
                assert(spec_before(oldout[x], oldout[y]));
            } else if x < pos && y == pos {
                assert(!spec_before(e, oldout[x]));
                lemma_before_total(oldout[x], e);
            } else if x < pos && y > pos {
                assert(spec_before(oldout[x], oldout[y - 1]));
            } else if x == pos {
                assert(spec_before(e, oldout[pos as int]));
                if y - 1 > pos {
                    lemma_before_trans(e, oldout[pos as int], oldout[y - 1]);
                }
            } else {
                assert(spec_before(oldout[x - 1], oldout[y - 1]));
            }
        }
    }
}

/// Sorts entries by the strict ranking order. The entries keep their values:
/// every output entry is an input entry and the other way round.
#[verifier::rlimit(100)]
fn sort_ranked(inp: Vec<RankedUser>) -> (out: Vec<RankedUser>)
    requires
        forall|a: int, b: int|
            0 <= a < b < inp@.len() ==> #[trigger] inp@[a].first_seen != #[trigger] inp@[b].first_seen,
    ensures
        out@.len() == inp@.len(),
        spec_sorted(out@),
        forall|k: int|
            0 <= k < out@.len() ==> #[trigger] spec_among(out@[k], inp@, 0, inp@.len() as int),
        forall|j: int|
            0 <= j < inp@.len() ==> #[trigger] spec_among(inp@[j], out@, 0, out@.len() as int),
{
    let ghost input0 = inp@;
    let mut work = inp;
    let mut out: Vec<RankedUser> = Vec::new();
    while work.len() > 0
        invariant
            work@ == input0.subrange(0, work@.len() as int),
            work@.len() + out@.len() == input0.len(),
            spec_sorted(out@),
            forall|a: int, b: int|
                0 <= a < b < input0.len() ==> #[trigger] input0[a].first_seen
                    != #[trigger] input0[b].first_seen,
            forall|k: int|
                0 <= k < out@.len() ==> #[trigger] spec_among(
                    out@[k],
                    input0,
                    work@.len() as int,
                    input0.len() as int,
                ),
            forall|j: int|
                work@.len() <= j < input0.len() ==> #[trigger] spec_among(
                    input0[j],
                    out@,
                    0,
                    out@.len() as int,
                ),
        decreases work@.len(),
    {
        let ghost rem = work@.len() as int;
        let e = work.pop().unwrap();
        proof {
            assert(work@ =~= input0.subrange(0, rem - 1));
            assert(e == input0[rem - 1]);
            lemma_pending_distinct(input0, out@, rem);
        }
        let ghost oldout = out@;
        insert_sorted(&mut out, e);
        proof {
            let pos = choose|pos: int|
                #![trigger oldout.insert(pos, e)]
                0 <= pos <= oldout.len() && out@ == oldout.insert(pos, e);
            lemma_insert_members(input0, oldout, out@, rem, pos);
        }
    }
    out
}

/// Some entry of `s` at index `lo` or later belongs to `user`.
pub open spec fn spec_user_listed_from(s: Seq<RankedUser>, user: Seq<char>, lo: int) -> bool {
    exists|k: int| lo <= k < s.len() && #[trigger] s[k].user_id@ == user
}

/// Some entry of `s` belongs to `user`.
pub open spec fn spec_user_listed(s: Seq<RankedUser>, user: Seq<char>) -> bool {
    spec_user_listed_from(s, user, 0)
}

/// One standings entry is truthful: its value is the user's metric and its
/// tie key is the index of the user's oldest counted record.
pub open spec fn spec_entry_ok(actions: Seq<Model>, category: Option<ActionType>, e: RankedUser) -> bool {
    &&& e.value == spec_metric(actions, e.user_id@, category)
    &&& 0 <= e.first_seen < actions.len()
    &&& spec_counted_any(actions[e.first_seen as int], e.user_id@)
    &&& forall|j: int| 0 <= j < e.first_seen ==> !spec_counted_any(#[trigger] actions[j], e.user_id@)
}

/// `s` is the full standings sequence for a metric: sorted best first, one
/// truthful entry per participant and nobody else.
pub open spec fn spec_is_standings(
    actions: Seq<Model>,
    category: Option<ActionType>,
    s: Seq<RankedUser>,
) -> bool {
    &&& spec_sorted(s)
    &&& forall|k: int| 0 <= k < s.len() ==> spec_entry_ok(actions, category, #[trigger] s[k])
    &&& forall|a: int, b: int|
        0 <= a < b < s.len() ==> #[trigger] s[a].user_id@ != #[trigger] s[b].user_id@
    &&& forall|i: int|
        0 <= i < actions.len() && (#[trigger] actions[i].action_status) is Confirmed
            ==> spec_user_listed(s, actions[i].user_id@)
}

/// Computes every participant's standing for one metric, best first.
#[verifier::rlimit(100)]
pub fn standings(actions: &Vec<Model>, category: Option<ActionType>) -> (r: Vec<RankedUser>)
    requires
        9 * actions@.len() <= u64::MAX,
    ensures
        spec_is_standings(actions@, category, r@),
        r@.len() <= actions@.len(),
{
    let agg = aggregate(actions);
    let mut pre: Vec<RankedUser> = Vec::new();
    let mut k: usize = 0;
    while k < agg.len()
        invariant
            9 * actions@.len() <= u64::MAX,
            spec_agg_ok(actions@, actions@.len() as int, agg@),
            agg@.len() <= actions@.len(),
            0 <= k <= agg@.len(),
            pre@.len() == k,
            forall|x: int| 0 <= x < k ==> #[trigger] pre@[x].user_id@ == agg@[x].user_id@,
            forall|x: int| 0 <= x < k ==> #[trigger] pre@[x].first_seen == agg@[x].first_seen,
            forall|x: int| 0 <= x < k ==> spec_entry_ok(actions@, category, #[trigger] pre@[x]),
        decreases agg@.len() - k,
    {
        proof {
            lemma_count_upto_bounds(
                actions@,
                actions@.len() as int,
                agg@[k as int].user_id@,
                ActionType::ConfirmBug,
            );
            lemma_count_upto_bounds(
                actions@,
                actions@.len() as int,
                agg@[k as int].user_id@,
                ActionType::ReportBug,
            );
            lemma_count_upto_bounds(
                actions@,
                actions@.len() as int,
                agg@[k as int].user_id@,
                ActionType::PRFix,
            );
        }
        let value = match category {
            None => agg[k].score.get_total_points(),
            Some(ActionType::ConfirmBug) => agg[k].score.bug_confirm,
            Some(ActionType::ReportBug) => agg[k].score.bug_report,
            Some(ActionType::PRFix) => agg[k].score.pr_fix,
        };
        pre.push(
            RankedUser { user_id: agg[k].user_id.clone(), value, first_seen: agg[k].first_seen },
        );
        k += 1;
    }
    let ghost prev = pre@;
    let out = sort_ranked(pre);
    proof {
        assert forall|x: int| 0 <= x < out@.len() implies spec_entry_ok(
            actions@,
            category,
            #[trigger] out@[x],
        ) by {
            assert(spec_among(out@[x], prev, 0, prev.len() as int));
            let j0 = choose|j: int| 0 <= j < prev.len() && #[trigger] prev[j] == out@[x];
            assert(spec_entry_ok(actions@, category, prev[j0]));
        }
        assert forall|a: int, b: int| 0 <= a < b < out@.len() implies #[trigger] out@[a].user_id@
            != #[trigger] out@[b].user_id@ by {
            assert(spec_among(out@[a], prev, 0, prev.len() as int));
            assert(spec_among(out@[b], prev, 0, prev.len() as int));
            let ja = choose|j: int| 0 <= j < prev.len() && #[trigger] prev[j] == out@[a];
            let jb = choose|j: int| 0 <= j < prev.len() && #[trigger] prev[j] == out@[b];
            assert(spec_before(out@[a], out@[b]));
            if ja == jb {
                assert(out@[a] == out@[b]);
            } else if ja < jb {
                assert(agg@[ja].user_id@ != agg@[jb].user_id@);
            } else {
                assert(agg@[jb].user_id@ != agg@[ja].user_id@);
            }
        }
        assert forall|i: int|
            0 <= i < actions@.len() && (#[trigger] actions@[i].action_status) is Confirmed
                implies spec_user_listed(out@, actions@[i].user_id@) by {
            let u = actions@[i].user_id@;
            let k0 = choose|kk: int| 0 <= kk < agg@.len() && #[trigger] agg@[kk].user_id@ == u;
            assert(prev[k0].user_id@ == u);
            assert(spec_among(prev[k0], out@, 0, out@.len() as int));
            let x0 = choose|x: int| 0 <= x < out@.len() && #[trigger] out@[x] == prev[k0];
            assert(out@[x0].user_id@ == u);
        }
    }
    out
}

/// One rendered leaderboard row.
pub struct LeaderboardLine {
    /// 1-based rank of the user on the full board.
    pub position: usize,
    pub user_id: String,
    pub value: u64,
    /// The row belongs to the user the board was requested for.
    pub is_invoker: bool,
    /// The row was appended below the displayed top to keep the requesting
    /// user visible.
    pub is_extra: bool,
}

/// The marker a row is rendered with: medals for the podium, a plain rank
/// number after it.
#[derive(Clone, Copy, PartialEq, Eq, Debug, Structural)]
pub enum RankMarker {
    Gold,
    Silver,
    Bronze,
    Numbered(usize),
}

impl LeaderboardLine {
    pub open spec fn spec_marker(self) -> RankMarker {
        if self.position == 1 {
            RankMarker::Gold
        } else if self.position == 2 {
            RankMarker::Silver
        } else if self.position == 3 {
            RankMarker::Bronze
        } else {
            RankMarker::Numbered(self.position)
        }
    }

    pub fn marker(&self) -> (m: RankMarker)
        ensures
            m == self.spec_marker(),
    {
        if self.position == 1 {
            RankMarker::Gold
        } else if self.position == 2 {
            RankMarker::Silver
        } else if self.position == 3 {
            RankMarker::Bronze
        } else {
            RankMarker::Numbered(self.position)
        }
    }
}

/// The requested user exists on the board but below the displayed top.
pub open spec fn spec_off_list(s: Seq<RankedUser>, highlight: Option<String>, limit: int) -> bool {
    match highlight {
        Some(x) => spec_user_listed_from(s, x@, limit),
        None => false,
    }
}

pub open spec fn spec_is_invoker(highlight: Option<String>, user: Seq<char>) -> bool {
    match highlight {
        Some(x) => x@ == user,
        None => false,
    }
}

/// What the rendered rows promise: the top `limit` standings in order, each
/// at its true rank, and, when the requested user ranks below the displayed
/// top, exactly one appended row naming that user with the user's true rank
/// and value.
pub open spec fn spec_lines_of(
    s: Seq<RankedUser>,
    highlight: Option<String>,
    limit: int,
    r: Seq<LeaderboardLine>,
) -> bool {
    let shown = if limit < s.len() { limit } else { s.len() as int };
    &&& r.len() == shown + (if spec_off_list(s, highlight, limit) { 1int } else { 0int })
    &&& forall|i: int|
        0 <= i < shown ==> {
            let line = #[trigger] r[i];
            &&& line.position == i + 1
            &&& line.user_id@ == s[i].user_id@
            &&& line.value == s[i].value
            &&& line.is_invoker == spec_is_invoker(highlight, s[i].user_id@)
            &&& !line.is_extra
        }
    &&& (spec_off_list(s, highlight, limit) ==> (highlight matches Some(x) && exists|k: int|
        limit <= k < s.len() && (#[trigger] s[k]).user_id@ == x@ && {
            let line = r[r.len() - 1];
            &&& line.position == k + 1
            &&& line.user_id@ == x@
            &&& line.value == s[k].value
            &&& line.is_invoker
            &&& line.is_extra
        }))
}

/// Renders the displayed rows of one standings sequence.
#[verifier::rlimit(100)]
pub fn leaderboard_lines(
    standings: &Vec<RankedUser>,
    highlight: &Option<String>,
    limit: usize,
) -> (r: Vec<LeaderboardLine>)
    requires
        forall|a: int, b: int|
            0 <= a < b < standings@.len() ==> #[trigger] standings@[a].user_id@
                != #[trigger] standings@[b].user_id@,
    ensures
        spec_lines_of(standings@, *highlight, limit as int, r@),
{
    let n = standings.len();
    let shown = if limit < n {
        limit
    } else {
        n
    };
    let mut r: Vec<LeaderboardLine> = Vec::new();
    let mut i: usize = 0;
    while i < shown
        invariant
            0 <= i <= shown <= n,
            n == standings@.len(),
            shown == if limit < n { limit as int } else { n as int },
            r@.len() == i,
            forall|x: int|
                0 <= x < i ==> {
                    let line = #[trigger] r@[x];
                    &&& line.position == x + 1
                    &&& line.user_id@ == standings@[x].user_id@
                    &&& line.value == standings@[x].value
                    &&& line.is_invoker == spec_is_invoker(*highlight, standings@[x].user_id@)
                    &&& !line.is_extra
                },
        decreases shown - i,
    {
        let inv = match highlight {
            Some(h) => standings[i].user_id.eq(h),
            None => false,
        };
        r.push(
            LeaderboardLine {
                position: i + 1,
                user_id: standings[i].user_id.clone(),
                value: standings[i].value,
                is_invoker: inv,
                is_extra: false,
            },
        );
        i += 1;
    }
    if let Some(h) = highlight {
        let mut k = shown;
        while k < n && !standings[k].user_id.eq(h)
            invariant
                shown <= k <= n,
                n == standings@.len(),
                forall|x: int| shown <= x < k ==> #[trigger] standings@[x].user_id@ != h@,
            decreases n - k,
        {
            k += 1;
        }
        if k < n {
            r.push(
                LeaderboardLine {
                    position: k + 1,
                    user_id: standings[k].user_id.clone(),
                    value: standings[k].value,
                    is_invoker: true,
                    is_extra: true,
                },
            );
        }
    }
    r
}

/// Some standings sequence for the metric underlies the rendered rows.
pub open spec fn spec_ranked_output(
    actions: Seq<Model>,
    category: Option<ActionType>,
    highlight: Option<String>,
    limit: int,
    lines: Seq<LeaderboardLine>,
) -> bool {
    exists|s: Seq<RankedUser>|
        #[trigger] spec_is_standings(actions, category, s) && spec_lines_of(
            s,
            highlight,
            limit,
            lines,
        )
}

/// Ranks every participant by the chosen metric and renders the top `limit`
/// rows, keeping the requested user visible.
///
/// Every row carries the user's exact metric value, and the rows never go up
/// again as one reads down the board.
#[verifier::rlimit(100)]
pub fn rank(
    actions: &Vec<Model>,
    category: Option<ActionType>,
    highlight: &Option<String>,
    limit: usize,
) -> (r: Vec<LeaderboardLine>)
    requires
        9 * actions@.len() <= u64::MAX,
    ensures
        spec_ranked_output(actions@, category, *highlight, limit as int, r@),
        forall|i: int|
            0 <= i < r@.len() ==> #[trigger] r@[i].value == spec_metric(
                actions@,
                r@[i].user_id@,
                category,
            ),
        forall|i: int, j: int|
            0 <= i < j < r@.len() ==> #[trigger] r@[i].value >= #[trigger] r@[j].value,
{
    let st = standings(actions, category);
    let r = leaderboard_lines(&st, highlight, limit);
    proof {
        assert(spec_is_standings(actions@, category, st@) && spec_lines_of(
            st@,
            *highlight,
            limit as int,
            r@,
        ));
        let shown: int = if limit < st@.len() { limit as int } else { st@.len() as int };
        if spec_off_list(st@, *highlight, limit as int) {
            let x = highlight->0;
            let k0 = choose|k: int|
                limit <= k < st@.len() && (#[trigger] st@[k]).user_id@ == x@ && {
                    let line = r@[r@.len() - 1];
                    &&& line.position == k + 1
                    &&& line.user_id@ == x@
                    &&& line.value == st@[k].value
                    &&& line.is_invoker
                    &&& line.is_extra
                };
            assert(spec_entry_ok(actions@, category, st@[k0]));
            assert forall|i: int, j: int| 0 <= i < j < r@.len() implies #[trigger] r@[i].value
                >= #[trigger] r@[j].value by {
                if j < shown {
                    assert(spec_before(st@[i], st@[j]));
                } else {
                    if i < shown {
                        assert(spec_before(st@[i], st@[k0]));
                    }
                }
            }
        } else {
            assert forall|i: int, j: int| 0 <= i < j < r@.len() implies #[trigger] r@[i].value
                >= #[trigger] r@[j].value by {
                assert(spec_before(st@[i], st@[j]));
            }
        }
    }
    r
}

/// Number of rows of each board in the general four-board view.
pub const PODIUM_LIMIT: usize = 5;

/// Number of rows of the single-category extended view.
pub const CATEGORY_LIMIT: usize = 20;

/// One board of a leaderboard view.
pub struct LeaderboardSection {
    pub category: Option<ActionType>,
    pub lines: Vec<LeaderboardLine>,
}

/// Composes the leaderboard view: without a category, four boards of
/// `PODIUM_LIMIT` rows (confirmations, reports, fixes, total points); with
/// one, a single board of `CATEGORY_LIMIT` rows.
#[verifier::rlimit(100)]
pub fn leaderboard_sections(
    actions: &Vec<Model>,
    category: Option<ActionType>,
    highlight: &Option<String>,
) -> (r: Vec<LeaderboardSection>)
    requires
        9 * actions@.len() <= u64::MAX,
    ensures
        match category {
            None => {
                &&& r@.len() == 4
                &&& r@[0].category == Some(ActionType::ConfirmBug)
                &&& r@[1].category == Some(ActionType::ReportBug)
                &&& r@[2].category == Some(ActionType::PRFix)
                &&& r@[3].category == Option::<ActionType>::None
                &&& forall|x: int|
                    0 <= x < 4 ==> spec_ranked_output(
                        actions@,
                        (#[trigger] r@[x]).category,
                        *highlight,
                        PODIUM_LIMIT as int,
                        r@[x].lines@,
                    )
            },
            Some(t) => {
                &&& r@.len() == 1
                &&& r@[0].category == Some(t)
                &&& spec_ranked_output(
                    actions@,
                    Some(t),
                    *highlight,
                    CATEGORY_LIMIT as int,
                    r@[0].lines@,
                )
            },
        },
{
    let mut r: Vec<LeaderboardSection> = Vec::new();
    match category {
        None => {
            let c0 = Some(ActionType::ConfirmBug);
            let c1 = Some(ActionType::ReportBug);
            let c2 = Some(ActionType::PRFix);
            r.push(
                LeaderboardSection {
                    category: c0,
                    lines: rank(actions, c0, highlight, PODIUM_LIMIT),
                },
            );
            r.push(
                LeaderboardSection {
                    category: c1,
                    lines: rank(actions, c1, highlight, PODIUM_LIMIT),
                },
            );
            r.push(
                LeaderboardSection {
                    category: c2,
                    lines: rank(actions, c2, highlight, PODIUM_LIMIT),
                },
            );
            r.push(
                LeaderboardSection {
                    category: None,
                    lines: rank(actions, None, highlight, PODIUM_LIMIT),
                },
            );
        },
        Some(t) => {
            r.push(
                LeaderboardSection {
                    category: Some(t),
                    lines: rank(actions, Some(t), highlight, CATEGORY_LIMIT),
                },
            );
        },
    }
    r
}

} // verus!
