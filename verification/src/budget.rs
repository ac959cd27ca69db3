use vstd::prelude::*;
use vstd::pervasive::VecAdditionalExecFns;
use vstd::string::StringExecFns;

use crate::authorize::AuthUser;
use crate::errors::ApiError;
use crate::ids::fresh_id;
use crate::table::{
    count_owned, find_by_id, find_scoped, has_id, ids_unique, list_scoped, rows_sorted, scoped_has,
    Row,
};
use crate::text::str_eq;

verus! {

/// A stored budget row. `amount` carries the raw 64-bit encoding of an
/// IEEE-754 double; timestamps are UTC epoch seconds.
#[derive(Debug, PartialEq)]
pub struct Budget {
    pub id: String,
    pub user_id: String,
    pub category: String,
    pub amount: u64,
    pub currency: String,
    pub period: String,
    pub created_at: i64,
    pub updated_at: i64,
}

/// A request to create a budget. `id` may be supplied by the caller; an
/// omitted currency defaults to "BDT", an omitted period to "monthly".
pub struct CreateBudgetRequest {
    pub id: Option<String>,
    pub category: String,
    pub amount: u64,
    pub currency: Option<String>,
    pub period: Option<String>,
}

/// A partial update: only supplied fields change.
pub struct UpdateBudgetRequest {
    pub category: Option<String>,
    pub amount: Option<u64>,
    pub currency: Option<String>,
    pub period: Option<String>,
}

impl Row for Budget {
    open spec fn row_id(&self) -> Seq<char> {
        self.id@
    }

    open spec fn row_owner(&self) -> Seq<char> {
        self.user_id@
    }

    /// Budgets list newest first.
    open spec fn spec_le(&self, other: &Self) -> bool {
        self.created_at >= other.created_at
    }

    proof fn lemma_le_total(a: &Self, b: &Self) {
    }

    proof fn lemma_le_trans(a: &Self, b: &Self, c: &Self) {
    }

    fn id_matches(&self, id: &str) -> (r: bool) {
        str_eq(self.id.as_str(), id)
    }

    fn owner_matches(&self, owner: &str) -> (r: bool) {
        str_eq(self.user_id.as_str(), owner)
    }

    fn le(&self, other: &Self) -> (r: bool) {
        self.created_at >= other.created_at
    }

    fn duplicate(&self) -> (r: Self) {
        Budget {
            id: self.id.clone(),
            user_id: self.user_id.clone(),
            category: self.category.clone(),
            amount: self.amount,
            currency: self.currency.clone(),
            period: self.period.clone(),
            created_at: self.created_at,
            updated_at: self.updated_at,
        }
    }
}

/// The result of merging a partial update into a stored budget: supplied
/// fields are replaced, absent fields keep their stored value, `updated_at`
/// is refreshed, and `id`, `user_id` and `created_at` never change.
pub open spec fn merged_budget(a: Budget, r: UpdateBudgetRequest, now: i64) -> Budget {
    Budget {
        id: a.id,
        user_id: a.user_id,
        category: match r.category {
            Some(v) => v,
            None => a.category,
        },
        amount: match r.amount {
            Some(v) => v,
            None => a.amount,
        },
        currency: match r.currency {
            Some(v) => v,
            None => a.currency,
        },
        period: match r.period {
            Some(v) => v,
            None => a.period,
        },
        created_at: a.created_at,
        updated_at: now,
    }
}

/// An update that supplies no fields leaves every business field of the
/// stored budget unchanged; only `updated_at` advances.
pub proof fn lemma_empty_budget_update(a: Budget, r: UpdateBudgetRequest, now: i64)
    requires
        r.category is None,
        r.amount is None,
        r.currency is None,
        r.period is None,
    ensures
        merged_budget(a, r, now) == (Budget { updated_at: now, ..a }),
{
}

/// The budgets table: rows with pairwise distinct identifiers.
pub struct BudgetTable {
    pub rows: Vec<Budget>,
}

impl BudgetTable {
    /// Well-formed: no two rows share an identifier.
    pub open spec fn wf(&self) -> bool {
        ids_unique(self.rows@)
    }

    /// An empty table.
    pub fn new() -> (r: Self)
        ensures
            r.wf(),
            r.rows@.len() == 0,
    {
        BudgetTable { rows: Vec::new() }
    }

    /// Creates a budget owned by the authenticated principal, with the
    /// documented defaults for omitted fields and both timestamps set to
    /// `now`. A caller-supplied identifier that already exists is a
    /// `Conflict`, and so is a generated one that collides, which cannot
    /// happen against an empty table.
    pub fn create_budget(&mut self, auth: &AuthUser, req: CreateBudgetRequest, now: i64) -> (r:
        Result<Budget, ApiError>)
        requires
            old(self).wf(),
        ensures
            final(self).wf(),
            match r {
                Ok(b) => {
                    &&& !has_id(old(self).rows@, b.id@)
                    &&& final(self).rows@ == old(self).rows@.push(b)
                    &&& b.user_id@ == auth.user_id@
                    &&& b.category@ == req.category@
                    &&& b.amount == req.amount
                    &&& b.currency@ == match req.currency {
                        Some(c) => c@,
                        None => "BDT"@,
                    }
                    &&& b.period@ == match req.period {
                        Some(p) => p@,
                        None => "monthly"@,
                    }
                    &&& b.created_at == now
                    &&& b.updated_at == now
                    &&& (req.id matches Some(s) ==> b.id@ == s@)
                },
                Err(ApiError::Conflict) => {
                    &&& final(self).rows@ == old(self).rows@
                    &&& old(self).rows@.len() > 0
                    &&& (req.id matches Some(s) ==> has_id(old(self).rows@, s@))
                },
                Err(_) => false,
            },
            req.id matches Some(s) && !has_id(old(self).rows@, s@) ==> r is Ok,
    {
        let CreateBudgetRequest { id, category, amount, currency, period } = req;
        let chosen_id = match id {
            Some(s) => {
                if find_by_id(&self.rows, s.as_str()).is_some() {
                    return Err(ApiError::Conflict);
                }
                s
            },
            None => {
                let g = fresh_id();
                if find_by_id(&self.rows, g.as_str()).is_some() {
                    return Err(ApiError::Conflict);
                }
                g
            },
        };
        let row = Budget {
            id: chosen_id,
            user_id: auth.user_id.clone(),
            category,
            amount,
            currency: match currency {
                Some(c) => c,
                None => String::from_str("BDT"),
            },
            period: match period {
                Some(p) => p,
                None => String::from_str("monthly"),
            },
            created_at: now,
            updated_at: now,
        };
        let out = row.duplicate();
        proof {
            crate::table::lemma_push_keeps_ids_unique(self.rows@, row);
        }
        self.rows.push(row);
        Ok(out)
    }

    /// Lists the principal's budgets, newest first. Never fails.
    pub fn get_budgets(&self, auth: &AuthUser) -> (r: Vec<Budget>)
        ensures
            rows_sorted(r@),
            r@.len() == count_owned(self.rows@, auth.user_id@),
            forall|i: int| 0 <= i < r@.len() ==> #[trigger] r@[i].user_id@ == auth.user_id@,
            forall|i: int| 0 <= i < r@.len() ==> self.rows@.contains(#[trigger] r@[i]),
            forall|j: int|
                0 <= j < self.rows@.len() && #[trigger] self.rows@[j].user_id@ == auth.user_id@
                    ==> r@.contains(self.rows@[j]),
    {
        let r = list_scoped(&self.rows, auth.user_id.as_str());
        proof {
            assert forall|i: int| 0 <= i < r@.len() implies #[trigger] r@[i].user_id@
                == auth.user_id@ by {
                assert(r@[i].row_owner() == auth.user_id@);
            }
            assert forall|j: int|
                0 <= j < self.rows@.len() && #[trigger] self.rows@[j].user_id@
                    == auth.user_id@ implies r@.contains(self.rows@[j]) by {
                assert(self.rows@[j].row_owner() == auth.user_id@);
            }
        }
        r
    }

    /// Fetches one budget in the principal's scope; a foreign or unknown
    /// identifier is `NotFound`.
    pub fn get_budget(&self, auth: &AuthUser, id: &str) -> (r: Result<Budget, ApiError>)
        ensures
            match r {
                Ok(b) => self.rows@.contains(b) && b.id@ == id@ && b.user_id@ == auth.user_id@,
                Err(e) => e == ApiError::NotFound && !scoped_has(self.rows@, auth.user_id@, id@),
            },
            (r is Ok) == scoped_has(self.rows@, auth.user_id@, id@),
    {
        match find_scoped(&self.rows, auth.user_id.as_str(), id) {
            Some(i) => {
                let b = self.rows[i].duplicate();
                assert(self.rows@.contains(b)) by {
                    assert(self.rows@[i as int] == b);
                }
                Ok(b)
            },
            None => Err(ApiError::NotFound),
        }
    }

    /// Merges a partial update into the scoped row and refreshes
    /// `updated_at`. Fails `NotFound` when the identifier is absent from
    /// the principal's scope.
    pub fn update_budget(
        &mut self,
        auth: &AuthUser,
        id: &str,
        req: &UpdateBudgetRequest,
        now: i64,
    ) -> (r: Result<(), ApiError>)
        requires
            old(self).wf(),
        ensures
            final(self).wf(),
            match r {
                Ok(()) => exists|i: int|
                    #![auto]
                    {
                        &&& 0 <= i < old(self).rows@.len()
                        &&& old(self).rows@[i].id@ == id@
                        &&& old(self).rows@[i].user_id@ == auth.user_id@
                        &&& final(self).rows@ == old(self).rows@.update(
                            i,
                            merged_budget(old(self).rows@[i], *req, now),
                        )
                    },
                Err(e) => e == ApiError::NotFound && final(self).rows@ == old(self).rows@
                    && !scoped_has(old(self).rows@, auth.user_id@, id@),
            },
            (r is Ok) == scoped_has(old(self).rows@, auth.user_id@, id@),
    {
        match find_scoped(&self.rows, auth.user_id.as_str(), id) {
            Some(i) => {
                let cur = &self.rows[i];
                let merged = Budget {
                    id: cur.id.clone(),
                    user_id: cur.user_id.clone(),
                    category: match &req.category {
                        Some(v) => v.clone(),
                        None => cur.category.clone(),
                    },
                    amount: match req.amount {
                        Some(v) => v,
                        None => cur.amount,
                    },
                    currency: match &req.currency {
                        Some(v) => v.clone(),
                        None => cur.currency.clone(),
                    },
                    period: match &req.period {
                        Some(v) => v.clone(),
                        None => cur.period.clone(),
                    },
                    created_at: cur.created_at,
                    updated_at: now,
                };
                proof {
                    assert(merged == merged_budget(self.rows@[i as int], *req, now));
                    crate::table::lemma_update_keeps_ids_unique(self.rows@, i as int, merged);
                }
                self.rows.set(i, merged);
                Ok(())
            },
            None => Err(ApiError::NotFound),
        }
    }

    /// Hard-deletes the scoped row. Fails `NotFound` when the identifier is
    /// absent from the principal's scope.
    pub fn delete_budget(&mut self, auth: &AuthUser, id: &str) -> (r: Result<(), ApiError>)
        requires
            old(self).wf(),
        ensures
            final(self).wf(),
            match r {
                Ok(()) => exists|i: int|
                    #![auto]
                    {
                        &&& 0 <= i < old(self).rows@.len()
                        &&& old(self).rows@[i].id@ == id@
                        &&& old(self).rows@[i].user_id@ == auth.user_id@
                        &&& final(self).rows@ == old(self).rows@.remove(i)
                    },
                Err(e) => e == ApiError::NotFound && final(self).rows@ == old(self).rows@
                    && !scoped_has(old(self).rows@, auth.user_id@, id@),
            },
            (r is Ok) == scoped_has(old(self).rows@, auth.user_id@, id@),
    {
        match find_scoped(&self.rows, auth.user_id.as_str(), id) {
            Some(i) => {
                proof {
                    crate::table::lemma_remove_keeps_ids_unique(self.rows@, i as int);
                }
                self.rows.remove(i);
                Ok(())
            },
            None => Err(ApiError::NotFound),
        }
    }
}

} // verus!
