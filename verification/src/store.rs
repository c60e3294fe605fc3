//! The core's model of the persistence collaborator: a table of action
//! records keyed by an auto-assigned integer id.
//!
//! Ids are assigned monotonically and never reused; a record is created only
//! with status `Pending`, and a status is changed at most once, by the
//! verification workflow, to `Confirmed` or `Denied`.

use vstd::prelude::*;

use crate::actions::ActionStatus;
use crate::actions::ActionType;
use crate::actions::Model;

verus! {

/// Record table and the id the next created record gets.
pub struct ActionStore {
    pub records: Vec<Model>,
    pub next_id: u32,
}

/// Well-formedness: ids strictly increase with position (so the oldest record
/// comes first and ids are unique), and stay below the next id to assign.
pub open spec fn spec_store_wf(s: ActionStore) -> bool {
    &&& forall|a: int, b: int|
        0 <= a < b < s.records@.len() ==> #[trigger] s.records@[a].id < #[trigger] s.records@[b].id
    &&& forall|k: int| 0 <= k < s.records@.len() ==> #[trigger] s.records@[k].id < s.next_id
}

/// Every record that had already left `Pending` in `before` stands unchanged
/// in `after`.
pub open spec fn spec_preserves_settled(before: Seq<Model>, after: Seq<Model>) -> bool {
    &&& before.len() <= after.len()
    &&& forall|i: int|
        0 <= i < before.len() && !((#[trigger] before[i].action_status) is Pending)
            ==> after[i] == before[i]
}

/// Status monotonicity survives any chain of operations: what neither of two
/// steps touched, their composition does not touch.
pub proof fn lemma_settled_transitive(a: Seq<Model>, b: Seq<Model>, c: Seq<Model>)
    requires
        spec_preserves_settled(a, b),
        spec_preserves_settled(b, c),
    ensures
        spec_preserves_settled(a, c),
{
    assert forall|i: int|
        0 <= i < a.len() && !((#[trigger] a[i].action_status) is Pending) implies c[i] == a[i] by {
        assert(b[i] == a[i]);
        assert(!(b[i].action_status is Pending));
    }
}

impl ActionStore {
    /// An empty table; the first record gets id 1.
    pub fn new() -> (s: ActionStore)
        ensures
            spec_store_wf(s),
            s.records@.len() == 0,
            s.next_id == 1,
    {
        ActionStore { records: Vec::new(), next_id: 1 }
    }

    /// Creates one record with status `Pending` under a fresh id. Fails only
    /// when the id space is exhausted, leaving the table unchanged.
    pub fn create(&mut self, user_id: String, action_type: ActionType, github_link: String) -> (r:
        Result<u32, ()>)
        requires
            spec_store_wf(*old(self)),
        ensures
            spec_store_wf(*final(self)),
            spec_preserves_settled(old(self).records@, final(self).records@),
            r is Err <==> old(self).next_id == u32::MAX,
            match r {
                Result::Ok(id) => {
                    &&& id == old(self).next_id
                    &&& final(self).next_id == old(self).next_id + 1
                    &&& final(self).records@ == old(self).records@.push(
                        (Model {
                            id,
                            action_status: ActionStatus::Pending,
                            action_type,
                            github_link,
                            user_id,
                        }),
                    )
                },
                Result::Err(_) => *final(self) == *old(self),
            },
    {
        if self.next_id == u32::MAX {
            return Result::Err(());
        }
        let id = self.next_id;
        self.next_id = self.next_id + 1;
        self.records.push(
            Model {
                id,
                action_status: ActionStatus::Pending,
                action_type,
                github_link,
                user_id,
            },
        );
        Result::Ok(id)
    }

    /// The full record set, oldest first.
    pub fn find_all(&self) -> (r: &Vec<Model>)
        ensures
            r@ == self.records@,
    {
        &self.records
    }

    /// Settles the record with the given id: only a `Pending` record can
    /// change, and only to a settled status. Returns whether a record
    /// changed. Every other record, and every record that had already left
    /// `Pending`, stands untouched.
    pub fn update_status(&mut self, id: u32, new_status: ActionStatus) -> (r: bool)
        requires
            spec_store_wf(*old(self)),
            !(new_status is Pending),
        ensures
            spec_store_wf(*final(self)),
            final(self).next_id == old(self).next_id,
            final(self).records@.len() == old(self).records@.len(),
            spec_preserves_settled(old(self).records@, final(self).records@),
            forall|k: int|
                0 <= k < old(self).records@.len() && (#[trigger] old(self).records@[k]).id != id
                    ==> final(self).records@[k] == old(self).records@[k],
            forall|k: int|
                0 <= k < old(self).records@.len() && (#[trigger] old(self).records@[k]).id == id
                    && old(self).records@[k].action_status is Pending ==> {
                    let updated = final(self).records@[k];
                    &&& updated.id == id
                    &&& updated.action_status == new_status
                    &&& updated.action_type == old(self).records@[k].action_type
                    &&& updated.github_link == old(self).records@[k].github_link
                    &&& updated.user_id == old(self).records@[k].user_id
                },
            r <==> exists|k: int|
                0 <= k < old(self).records@.len() && (#[trigger] old(self).records@[k]).id == id
                    && old(self).records@[k].action_status is Pending,
    {
        let n = self.records.len();
        let mut k: usize = 0;
        while k < n
            invariant
                0 <= k <= n,
                n == self.records@.len(),
                self.records@ == old(self).records@,
                self.next_id == old(self).next_id,
                spec_store_wf(*self),
                !(new_status is Pending),
                forall|j: int| 0 <= j < k ==> (#[trigger] old(self).records@[j]).id != id,
            decreases n - k,
        {
            if self.records[k].id == id {
                let pending = match self.records[k].action_status {
                    ActionStatus::Pending => true,
                    _ => false,
                };
                proof {
                    let prev = old(self).records@;
                    assert forall|x: int| 0 <= x < prev.len() && x != k implies (
                    #[trigger] prev[x]).id != id by {
                        if x < k {
                            assert(prev[x].id < prev[k as int].id);
                        } else {
                            assert(prev[k as int].id < prev[x].id);
                        }
                    }
                }
                if pending {
                    self.records[k].action_status = new_status;
                    return true;
                } else {
                    return false;
                }
            }
            k += 1;
        }
        false
    }
}

} // verus!
