use vstd::prelude::*;
use vstd::pervasive::VecAdditionalExecFns;
use vstd::string::StringExecFns;

use crate::authorize::AuthUser;
use crate::errors::ApiError;
use crate::ids::fresh_id;
use crate::table::{
    count_owned, find_by_id, find_scoped, has_id, ids_unique, list_scoped, rows_sorted, scoped_has,
    Row,
};
use crate::text::str_eq;

verus! {

/// A stored savings-goal row. The amounts carry the raw 64-bit encoding of
/// an IEEE-754 double — a fresh goal starts at the encoding of 0.0, which
/// is the zero word. Dates and timestamps are UTC epoch seconds.
#[derive(Debug, PartialEq)]
pub struct SavingsGoal {
    pub id: String,
    pub user_id: String,
    pub name: String,
    pub target_amount: u64,
    pub current_amount: u64,
    pub currency: String,
    pub target_date: i64,
    pub description: Option<String>,
    pub account_id: Option<String>,
    pub priority: String,
    pub is_completed: bool,
    pub created_at: i64,
    pub updated_at: i64,
}

/// A request to create a savings goal. `id` may be supplied by the caller;
/// the currency defaults to "BDT" and the priority to "medium" when
/// omitted; a fresh goal starts uncompleted with nothing saved.
pub struct CreateSavingsGoalRequest {
    pub id: Option<String>,
    pub name: String,
    pub target_amount: u64,
    pub currency: Option<String>,
    pub target_date: i64,
    pub description: Option<String>,
    pub account_id: Option<String>,
    pub priority: Option<String>,
}

/// A partial update: only supplied fields change.
pub struct UpdateSavingsGoalRequest {
    pub name: Option<String>,
    pub target_amount: Option<u64>,
    pub current_amount: Option<u64>,
    pub currency: Option<String>,
    pub target_date: Option<i64>,
    pub description: Option<String>,
    pub account_id: Option<String>,
    pub priority: Option<String>,
    pub is_completed: Option<bool>,
}

impl Row for SavingsGoal {
    open spec fn row_id(&self) -> Seq<char> {
        self.id@
    }

    open spec fn row_owner(&self) -> Seq<char> {
        self.user_id@
    }

    /// Savings goals list by target date, soonest first.
    open spec fn spec_le(&self, other: &Self) -> bool {
        self.target_date <= other.target_date
    }

    proof fn lemma_le_total(a: &Self, b: &Self) {
    }

    proof fn lemma_le_trans(a: &Self, b: &Self, c: &Self) {
    }

    fn id_matches(&self, id: &str) -> (r: bool) {
        str_eq(self.id.as_str(), id)
    }

    fn owner_matches(&self, owner: &str) -> (r: bool) {
        str_eq(self.user_id.as_str(), owner)
    }

    fn le(&self, other: &Self) -> (r: bool) {
        self.target_date <= other.target_date
    }

    fn duplicate(&self) -> (r: Self) {
        SavingsGoal {
            id: self.id.clone(),
            user_id: self.user_id.clone(),
            name: self.name.clone(),
            target_amount: self.target_amount,
            current_amount: self.current_amount,
            currency: self.currency.clone(),
            target_date: self.target_date,
            description: match &self.description {
                Some(d) => Some(d.clone()),
                None => None,
            },
            account_id: match &self.account_id {
                Some(a) => Some(a.clone()),
                None => None,
            },
            priority: self.priority.clone(),
            is_completed: self.is_completed,
            created_at: self.created_at,
            updated_at: self.updated_at,
        }
    }
}

/// The result of merging a partial update into a stored savings goal:
/// supplied fields are replaced, absent fields keep their stored value,
/// `updated_at` is refreshed, and `id`, `user_id` and `created_at` never
/// change.
pub open spec fn merged_savings_goal(
    a: SavingsGoal,
    r: UpdateSavingsGoalRequest,
    now: i64,
) -> SavingsGoal {
    SavingsGoal {
        id: a.id,
        user_id: a.user_id,
        name: match r.name {
            Some(v) => v,
            None => a.name,
        },
        target_amount: match r.target_amount {
            Some(v) => v,
            None => a.target_amount,
        },
        current_amount: match r.current_amount {
            Some(v) => v,
            None => a.current_amount,
        },
        currency: match r.currency {
            Some(v) => v,
            None => a.currency,
        },
        target_date: match r.target_date {
            Some(v) => v,
            None => a.target_date,
        },
        description: match r.description {
            Some(v) => Some(v),
            None => a.description,
        },
        account_id: match r.account_id {
            Some(v) => Some(v),
            None => a.account_id,
        },
        priority: match r.priority {
            Some(v) => v,
            None => a.priority,
        },
        is_completed: match r.is_completed {
            Some(v) => v,
            None => a.is_completed,
        },
        created_at: a.created_at,
        updated_at: now,
    }
}

/// An update that supplies no fields leaves every business field of the
/// stored savings goal unchanged; only `updated_at` advances.
pub proof fn lemma_empty_savings_goal_update(a: SavingsGoal, r: UpdateSavingsGoalRequest, now: i64)
    requires
        r.name is None,
        r.target_amount is None,
        r.current_amount is None,
        r.currency is None,
        r.target_date is None,
        r.description is None,
        r.account_id is None,
        r.priority is None,
        r.is_completed is None,
    ensures
        merged_savings_goal(a, r, now) == (SavingsGoal { updated_at: now, ..a }),
{
}

/// The savings-goals table: rows with pairwise distinct identifiers.
pub struct SavingsGoalTable {
    pub rows: Vec<SavingsGoal>,
}

impl SavingsGoalTable {
    /// Well-formed: no two rows share an identifier.
    pub open spec fn wf(&self) -> bool {
        ids_unique(self.rows@)
    }

    /// An empty table.
    pub fn new() -> (r: Self)
        ensures
            r.wf(),
            r.rows@.len() == 0,
    {
        SavingsGoalTable { rows: Vec::new() }
    }

    /// Creates a savings goal owned by the authenticated principal, with
    /// the documented defaults, nothing saved yet, and both timestamps set
    /// to `now`. A caller-supplied identifier that already exists is a
    /// `Conflict`, and so is a generated one that collides, which cannot
    /// happen against an empty table.
    pub fn create_savings_goal(
        &mut self,
        auth: &AuthUser,
        req: CreateSavingsGoalRequest,
        now: i64,
    ) -> (r: Result<SavingsGoal, ApiError>)
        requires
            old(self).wf(),
        ensures
            final(self).wf(),
            match r {
                Ok(g) => {
                    &&& !has_id(old(self).rows@, g.id@)
                    &&& final(self).rows@ == old(self).rows@.push(g)
                    &&& g.user_id@ == auth.user_id@
                    &&& g.name@ == req.name@
                    &&& g.target_amount == req.target_amount
                    &&& g.current_amount == 0
                    &&& g.currency@ == match req.currency {
                        Some(c) => c@,
                        None => "BDT"@,
                    }
                    &&& g.target_date == req.target_date
                    &&& g.description == req.description
                    &&& g.account_id == req.account_id
                    &&& g.priority@ == match req.priority {
                        Some(p) => p@,
                        None => "medium"@,
                    }
                    &&& g.is_completed == false
                    &&& g.created_at == now
                    &&& g.updated_at == now
                    &&& (req.id matches Some(s) ==> g.id@ == s@)
                },
                Err(ApiError::Conflict) => {
                    &&& final(self).rows@ == old(self).rows@
                    &&& old(self).rows@.len() > 0
                    &&& (req.id matches Some(s) ==> has_id(old(self).rows@, s@))
                },
                Err(_) => false,
            },
            req.id matches Some(s) && !has_id(old(self).rows@, s@) ==> r is Ok,
    {
        let CreateSavingsGoalRequest {
            id,
            name,
            target_amount,
            currency,
            target_date,
            description,
            account_id,
            priority,
        } = req;
        let chosen_id = match id {
            Some(s) => {
                if find_by_id(&self.rows, s.as_str()).is_some() {
                    return Err(ApiError::Conflict);
                }
                s
            },
            None => {
                let g = fresh_id();
                if find_by_id(&self.rows, g.as_str()).is_some() {
                    return Err(ApiError::Conflict);
                }
                g
            },
        };
        let row = SavingsGoal {
            id: chosen_id,
            user_id: auth.user_id.clone(),
            name,
            target_amount,
            current_amount: 0,
            currency: match currency {
                Some(c) => c,
                None => String::from_str("BDT"),
            },
            target_date,
            description,
            account_id,
            priority: match priority {
                Some(p) => p,
                None => String::from_str("medium"),
            },
            is_completed: false,
            created_at: now,
            updated_at: now,
        };
        let out = row.duplicate();
        proof {
            crate::table::lemma_push_keeps_ids_unique(self.rows@, row);
        }
        self.rows.push(row);
        Ok(out)
    }

    /// Lists the principal's savings goals by target date, soonest first.
    /// Never fails.
    pub fn get_savings_goals(&self, auth: &AuthUser) -> (r: Vec<SavingsGoal>)
        ensures
            rows_sorted(r@),
            r@.len() == count_owned(self.rows@, auth.user_id@),
            forall|i: int| 0 <= i < r@.len() ==> #[trigger] r@[i].user_id@ == auth.user_id@,
            forall|i: int| 0 <= i < r@.len() ==> self.rows@.contains(#[trigger] r@[i]),
            forall|j: int|
                0 <= j < self.rows@.len() && #[trigger] self.rows@[j].user_id@ == auth.user_id@
                    ==> r@.contains(self.rows@[j]),
    {
        let r = list_scoped(&self.rows, auth.user_id.as_str());
        proof {
            assert forall|i: int| 0 <= i < r@.len() implies #[trigger] r@[i].user_id@
                == auth.user_id@ by {
                assert(r@[i].row_owner() == auth.user_id@);
            }
            assert forall|j: int|
                0 <= j < self.rows@.len() && #[trigger] self.rows@[j].user_id@
                    == auth.user_id@ implies r@.contains(self.rows@[j]) by {
                assert(self.rows@[j].row_owner() == auth.user_id@);
            }
        }
        r
    }

    /// Fetches one savings goal in the principal's scope; a foreign or
    /// unknown identifier is `NotFound`.
    pub fn get_savings_goal(&self, auth: &AuthUser, id: &str) -> (r: Result<SavingsGoal, ApiError>)
        ensures
            match r {
                Ok(g) => self.rows@.contains(g) && g.id@ == id@ && g.user_id@ == auth.user_id@,
                Err(e) => e == ApiError::NotFound && !scoped_has(self.rows@, auth.user_id@, id@),
            },
            (r is Ok) == scoped_has(self.rows@, auth.user_id@, id@),
    {
        match find_scoped(&self.rows, auth.user_id.as_str(), id) {
            Some(i) => {
                let g = self.rows[i].duplicate();
                assert(self.rows@.contains(g)) by {
                    assert(self.rows@[i as int] == g);
                }
                Ok(g)
            },
            None => Err(ApiError::NotFound),
        }
    }

    /// Merges a partial update into the scoped row and refreshes
    /// `updated_at`. Fails `NotFound` when the identifier is absent from
    /// the principal's scope.
    pub fn update_savings_goal(
        &mut self,
        auth: &AuthUser,
        id: &str,
        req: &UpdateSavingsGoalRequest,
        now: i64,
    ) -> (r: Result<(), ApiError>)
        requires
            old(self).wf(),
        ensures
            final(self).wf(),
            match r {
                Ok(()) => exists|i: int|
                    #![auto]
                    {
                        &&& 0 <= i < old(self).rows@.len()
                        &&& old(self).rows@[i].id@ == id@
                        &&& old(self).rows@[i].user_id@ == auth.user_id@
                        &&& final(self).rows@ == old(self).rows@.update(
                            i,
                            merged_savings_goal(old(self).rows@[i], *req, now),
                        )
                    },
                Err(e) => e == ApiError::NotFound && final(self).rows@ == old(self).rows@
                    && !scoped_has(old(self).rows@, auth.user_id@, id@),
            },
            (r is Ok) == scoped_has(old(self).rows@, auth.user_id@, id@),
    {
        match find_scoped(&self.rows, auth.user_id.as_str(), id) {
            Some(i) => {
                let cur = &self.rows[i];
                let merged = SavingsGoal {
                    id: cur.id.clone(),
                    user_id: cur.user_id.clone(),
                    name: match &req.name {
                        Some(v) => v.clone(),
                        None => cur.name.clone(),
                    },
                    target_amount: match req.target_amount {
                        Some(v) => v,
                        None => cur.target_amount,
                    },
                    current_amount: match req.current_amount {
                        Some(v) => v,
                        None => cur.current_amount,
                    },
                    currency: match &req.currency {
                        Some(v) => v.clone(),
                        None => cur.currency.clone(),
                    },
                    target_date: match req.target_date {
                        Some(v) => v,
                        None => cur.target_date,
                    },
                    description: match &req.description {
                        Some(v) => Some(v.clone()),
                        None => match &cur.description {
                            Some(d) => Some(d.clone()),
                            None => None,
                        },
                    },
                    account_id: match &req.account_id {
                        Some(v) => Some(v.clone()),
                        None => match &cur.account_id {
                            Some(a) => Some(a.clone()),
                            None => None,
                        },
                    },
                    priority: match &req.priority {
                        Some(v) => v.clone(),
                        None => cur.priority.clone(),
                    },
                    is_completed: match req.is_completed {
                        Some(v) => v,
                        None => cur.is_completed,
                    },
                    created_at: cur.created_at,
                    updated_at: now,
                };
                proof {
                    assert(merged == merged_savings_goal(self.rows@[i as int], *req, now));
                    crate::table::lemma_update_keeps_ids_unique(self.rows@, i as int, merged);
                }
                self.rows.set(i, merged);
                Ok(())
            },
            None => Err(ApiError::NotFound),
        }
    }

    /// Hard-deletes the scoped row. Fails `NotFound` when the identifier is
    /// absent from the principal's scope.
    pub fn delete_savings_goal(&mut self, auth: &AuthUser, id: &str) -> (r: Result<(), ApiError>)
        requires
            old(self).wf(),
        ensures
            final(self).wf(),
            match r {
                Ok(()) => exists|i: int|
                    #![auto]
                    {
                        &&& 0 <= i < old(self).rows@.len()
                        &&& old(self).rows@[i].id@ == id@
                        &&& old(self).rows@[i].user_id@ == auth.user_id@
                        &&& final(self).rows@ == old(self).rows@.remove(i)
                    },
                Err(e) => e == ApiError::NotFound && final(self).rows@ == old(self).rows@
                    && !scoped_has(old(self).rows@, auth.user_id@, id@),
            },
            (r is Ok) == scoped_has(old(self).rows@, auth.user_id@, id@),
    {
        match find_scoped(&self.rows, auth.user_id.as_str(), id) {
            Some(i) => {
                proof {
                    crate::table::lemma_remove_keeps_ids_unique(self.rows@, i as int);
                }
                self.rows.remove(i);
                Ok(())
            },
            None => Err(ApiError::NotFound),
        }
    }
}

} // verus!
