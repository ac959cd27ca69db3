use vstd::prelude::*;
use vstd::pervasive::VecAdditionalExecFns;
use vstd::string::StringExecFns;

use crate::authorize::AuthUser;
use crate::errors::ApiError;
use crate::ids::fresh_id;
use crate::table::{
    count_owned, find_by_id, find_scoped, has_id, ids_unique, list_scoped, rows_sorted, scoped_has,
    Row,
};
use crate::text::str_eq;

verus! {

/// A stored recurring-transaction row: a template that the application
/// materializes on schedule. `amount` carries the raw 64-bit encoding of an
/// IEEE-754 double; dates and timestamps are UTC epoch seconds.
#[derive(Debug, PartialEq)]
pub struct RecurringTransaction {
    pub id: String,
    pub user_id: String,
    pub account_id: String,
    pub transaction_type: String,
    pub amount: u64,
    pub currency: String,
    pub category: Option<String>,
    pub description: Option<String>,
    pub frequency: String,
    pub start_date: i64,
    pub end_date: Option<i64>,
    pub next_due_date: i64,
    pub is_active: bool,
    pub savings_goal_id: Option<String>,
    pub created_at: i64,
    pub updated_at: i64,
}

/// A request to create a recurring transaction. `id` may be supplied by
/// the caller; the currency defaults to "BDT", the frequency to "monthly"
/// and the active flag to true when omitted.
pub struct CreateRecurringTransactionRequest {
    pub id: Option<String>,
    pub account_id: String,
    pub transaction_type: String,
    pub amount: u64,
    pub currency: Option<String>,
    pub category: Option<String>,
    pub description: Option<String>,
    pub frequency: Option<String>,
    pub start_date: i64,
    pub end_date: Option<i64>,
    pub next_due_date: i64,
    pub is_active: Option<bool>,
    pub savings_goal_id: Option<String>,
}

/// A partial update: only supplied fields change.
pub struct UpdateRecurringTransactionRequest {
    pub account_id: Option<String>,
    pub transaction_type: Option<String>,
    pub amount: Option<u64>,
    pub currency: Option<String>,
    pub category: Option<String>,
    pub description: Option<String>,
    pub frequency: Option<String>,
    pub start_date: Option<i64>,
    pub end_date: Option<i64>,
    pub next_due_date: Option<i64>,
    pub is_active: Option<bool>,
    pub savings_goal_id: Option<String>,
}

impl Row for RecurringTransaction {
    open spec fn row_id(&self) -> Seq<char> {
        self.id@
    }

    open spec fn row_owner(&self) -> Seq<char> {
        self.user_id@
    }

    /// Recurring transactions list newest first.
    open spec fn spec_le(&self, other: &Self) -> bool {
        self.created_at >= other.created_at
    }

    proof fn lemma_le_total(a: &Self, b: &Self) {
    }

    proof fn lemma_le_trans(a: &Self, b: &Self, c: &Self) {
    }

    fn id_matches(&self, id: &str) -> (r: bool) {
        str_eq(self.id.as_str(), id)
    }

    fn owner_matches(&self, owner: &str) -> (r: bool) {
        str_eq(self.user_id.as_str(), owner)
    }

    fn le(&self, other: &Self) -> (r: bool) {
        self.created_at >= other.created_at
    }

    fn duplicate(&self) -> (r: Self) {
        RecurringTransaction {
            id: self.id.clone(),
            user_id: self.user_id.clone(),
            account_id: self.account_id.clone(),
            transaction_type: self.transaction_type.clone(),
            amount: self.amount,
            currency: self.currency.clone(),
            category: match &self.category {
                Some(c) => Some(c.clone()),
                None => None,
            },
            description: match &self.description {
                Some(d) => Some(d.clone()),
                None => None,
            },
            frequency: self.frequency.clone(),
            start_date: self.start_date,
            end_date: self.end_date,
            next_due_date: self.next_due_date,
            is_active: self.is_active,
            savings_goal_id: match &self.savings_goal_id {
                Some(s) => Some(s.clone()),
                None => None,
            },
            created_at: self.created_at,
            updated_at: self.updated_at,
        }
    }
}

/// The result of merging a partial update into a stored recurring
/// transaction: supplied fields are replaced, absent fields keep their
/// stored value, `updated_at` is refreshed, and `id`, `user_id` and
/// `created_at` never change.
pub open spec fn merged_recurring_transaction(
    a: RecurringTransaction,
    r: UpdateRecurringTransactionRequest,
    now: i64,
) -> RecurringTransaction {
    RecurringTransaction {
        id: a.id,
        user_id: a.user_id,
        account_id: match r.account_id {
            Some(v) => v,
            None => a.account_id,
        },
        transaction_type: match r.transaction_type {
            Some(v) => v,
            None => a.transaction_type,
        },
        amount: match r.amount {
            Some(v) => v,
            None => a.amount,
        },
        currency: match r.currency {
            Some(v) => v,
            None => a.currency,
        },
        category: match r.category {
            Some(v) => Some(v),
            None => a.category,
        },
        description: match r.description {
            Some(v) => Some(v),
            None => a.description,
        },
        frequency: match r.frequency {
            Some(v) => v,
            None => a.frequency,
        },
        start_date: match r.start_date {
            Some(v) => v,
            None => a.start_date,
        },
        end_date: match r.end_date {
            Some(v) => Some(v),
            None => a.end_date,
        },
        next_due_date: match r.next_due_date {
            Some(v) => v,
            None => a.next_due_date,
        },
        is_active: match r.is_active {
            Some(v) => v,
            None => a.is_active,
        },
        savings_goal_id: match r.savings_goal_id {
            Some(v) => Some(v),
            None => a.savings_goal_id,
        },
        created_at: a.created_at,
        updated_at: now,
    }
}

/// An update that supplies no fields leaves every business field of the
/// stored recurring transaction unchanged; only `updated_at` advances.
pub proof fn lemma_empty_recurring_transaction_update(
    a: RecurringTransaction,
    r: UpdateRecurringTransactionRequest,
    now: i64,
)
    requires
        r.account_id is None,
        r.transaction_type is None,
        r.amount is None,
        r.currency is None,
        r.category is None,
        r.description is None,
        r.frequency is None,
        r.start_date is None,
        r.end_date is None,
        r.next_due_date is None,
        r.is_active is None,
        r.savings_goal_id is None,
    ensures
        merged_recurring_transaction(a, r, now) == (RecurringTransaction {
            updated_at: now,
            ..a
        }),
{
}

/// The recurring-transactions table: rows with pairwise distinct
/// identifiers.
pub struct RecurringTransactionTable {
    pub rows: Vec<RecurringTransaction>,
}

impl RecurringTransactionTable {
    /// Well-formed: no two rows share an identifier.
    pub open spec fn wf(&self) -> bool {
        ids_unique(self.rows@)
    }

    /// An empty table.
    pub fn new() -> (r: Self)
        ensures
            r.wf(),
            r.rows@.len() == 0,
    {
        RecurringTransactionTable { rows: Vec::new() }
    }

    /// Creates a recurring transaction owned by the authenticated
    /// principal, with the documented defaults and both timestamps set to
    /// `now`. A caller-supplied identifier that already exists is a
    /// `Conflict`, and so is a generated one that collides, which cannot
    /// happen against an empty table.
    pub fn create_recurring_transaction(
        &mut self,
        auth: &AuthUser,
        req: CreateRecurringTransactionRequest,
        now: i64,
    ) -> (r: Result<RecurringTransaction, ApiError>)
        requires
            old(self).wf(),
        ensures
            final(self).wf(),
            match r {
                Ok(t) => {
                    &&& !has_id(old(self).rows@, t.id@)
                    &&& final(self).rows@ == old(self).rows@.push(t)
                    &&& t.user_id@ == auth.user_id@
                    &&& t.account_id@ == req.account_id@
                    &&& t.transaction_type@ == req.transaction_type@
                    &&& t.amount == req.amount
                    &&& t.currency@ == match req.currency {
                        Some(c) => c@,
                        None => "BDT"@,
                    }
                    &&& t.category == req.category
                    &&& t.description == req.description
                    &&& t.frequency@ == match req.frequency {
                        Some(f) => f@,
                        None => "monthly"@,
                    }
                    &&& t.start_date == req.start_date
                    &&& t.end_date == req.end_date
                    &&& t.next_due_date == req.next_due_date
                    &&& t.is_active == match req.is_active {
                        Some(b) => b,
                        None => true,
                    }
                    &&& t.savings_goal_id == req.savings_goal_id
                    &&& t.created_at == now
                    &&& t.updated_at == now
                    &&& (req.id matches Some(s) ==> t.id@ == s@)
                },
                Err(ApiError::Conflict) => {
                    &&& final(self).rows@ == old(self).rows@
                    &&& old(self).rows@.len() > 0
                    &&& (req.id matches Some(s) ==> has_id(old(self).rows@, s@))
                },
                Err(_) => false,
            },
            req.id matches Some(s) && !has_id(old(self).rows@, s@) ==> r is Ok,
    {
        let CreateRecurringTransactionRequest {
            id,
            account_id,
            transaction_type,
            amount,
            currency,
            category,
            description,
            frequency,
            start_date,
            end_date,
            next_due_date,
            is_active,
            savings_goal_id,
        } = req;
        let chosen_id = match id {
            Some(s) => {
                if find_by_id(&self.rows, s.as_str()).is_some() {
                    return Err(ApiError::Conflict);
                }
                s
            },
            None => {
                let g = fresh_id();
                if find_by_id(&self.rows, g.as_str()).is_some() {
                    return Err(ApiError::Conflict);
                }
                g
            },
        };
        let row = RecurringTransaction {
            id: chosen_id,
            user_id: auth.user_id.clone(),
            account_id,
            transaction_type,
            amount,
            currency: match currency {
                Some(c) => c,
                None => String::from_str("BDT"),
            },
            category,
            description,
            frequency: match frequency {
                Some(f) => f,
                None => String::from_str("monthly"),
            },
            start_date,
            end_date,
            next_due_date,
            is_active: match is_active {
                Some(b) => b,
                None => true,
            },
            savings_goal_id,
            created_at: now,
            updated_at: now,
        };
        let out = row.duplicate();
        proof {
            crate::table::lemma_push_keeps_ids_unique(self.rows@, row);
        }
        self.rows.push(row);
        Ok(out)
    }

    /// Lists the principal's recurring transactions, newest first. Never
    /// fails.
    pub fn get_recurring_transactions(&self, auth: &AuthUser) -> (r: Vec<RecurringTransaction>)
        ensures
            rows_sorted(r@),
            r@.len() == count_owned(self.rows@, auth.user_id@),
            forall|i: int| 0 <= i < r@.len() ==> #[trigger] r@[i].user_id@ == auth.user_id@,
            forall|i: int| 0 <= i < r@.len() ==> self.rows@.contains(#[trigger] r@[i]),
            forall|j: int|
                0 <= j < self.rows@.len() && #[trigger] self.rows@[j].user_id@ == auth.user_id@
                    ==> r@.contains(self.rows@[j]),
    {
        let r = list_scoped(&self.rows, auth.user_id.as_str());
        proof {
            assert forall|i: int| 0 <= i < r@.len() implies #[trigger] r@[i].user_id@
                == auth.user_id@ by {
                assert(r@[i].row_owner() == auth.user_id@);
            }
            assert forall|j: int|
                0 <= j < self.rows@.len() && #[trigger] self.rows@[j].user_id@
                    == auth.user_id@ implies r@.contains(self.rows@[j]) by {
                assert(self.rows@[j].row_owner() == auth.user_id@);
            }
        }
        r
    }

    /// Fetches one recurring transaction in the principal's scope; a
    /// foreign or unknown identifier is `NotFound`.
    pub fn get_recurring_transaction(&self, auth: &AuthUser, id: &str) -> (r: Result<
        RecurringTransaction,
        ApiError,
    >)
        ensures
            match r {
                Ok(t) => self.rows@.contains(t) && t.id@ == id@ && t.user_id@ == auth.user_id@,
                Err(e) => e == ApiError::NotFound && !scoped_has(self.rows@, auth.user_id@, id@),
            },
            (r is Ok) == scoped_has(self.rows@, auth.user_id@, id@),
    {
        match find_scoped(&self.rows, auth.user_id.as_str(), id) {
            Some(i) => {
                let t = self.rows[i].duplicate();
                assert(self.rows@.contains(t)) by {
                    assert(self.rows@[i as int] == t);
                }
                Ok(t)
            },
            None => Err(ApiError::NotFound),
        }
    }

    /// Merges a partial update into the scoped row and refreshes
    /// `updated_at`. Fails `NotFound` when the identifier is absent from
    /// the principal's scope.
    pub fn update_recurring_transaction(
        &mut self,
        auth: &AuthUser,
        id: &str,
        req: &UpdateRecurringTransactionRequest,
        now: i64,
    ) -> (r: Result<(), ApiError>)
        requires
            old(self).wf(),
        ensures
            final(self).wf(),
            match r {
                Ok(()) => exists|i: int|
                    #![auto]
                    {
                        &&& 0 <= i < old(self).rows@.len()
                        &&& old(self).rows@[i].id@ == id@
                        &&& old(self).rows@[i].user_id@ == auth.user_id@
                        &&& final(self).rows@ == old(self).rows@.update(
                            i,
                            merged_recurring_transaction(old(self).rows@[i], *req, now),
                        )
                    },
                Err(e) => e == ApiError::NotFound && final(self).rows@ == old(self).rows@
                    && !scoped_has(old(self).rows@, auth.user_id@, id@),
            },
            (r is Ok) == scoped_has(old(self).rows@, auth.user_id@, id@),
    {
        match find_scoped(&self.rows, auth.user_id.as_str(), id) {
            Some(i) => {
                let cur = &self.rows[i];
                let merged = RecurringTransaction {
                    id: cur.id.clone(),
                    user_id: cur.user_id.clone(),
                    account_id: match &req.account_id {
                        Some(v) => v.clone(),
                        None => cur.account_id.clone(),
                    },
                    transaction_type: match &req.transaction_type {
                        Some(v) => v.clone(),
                        None => cur.transaction_type.clone(),
                    },
                    amount: match req.amount {
                        Some(v) => v,
                        None => cur.amount,
                    },
                    currency: match &req.currency {
                        Some(v) => v.clone(),
                        None => cur.currency.clone(),
                    },
                    category: match &req.category {
                        Some(v) => Some(v.clone()),
                        None => match &cur.category {
                            Some(c) => Some(c.clone()),
                            None => None,
                        },
                    },
                    description: match &req.description {
                        Some(v) => Some(v.clone()),
                        None => match &cur.description {
                            Some(d) => Some(d.clone()),
                            None => None,
                        },
                    },
                    frequency: match &req.frequency {
                        Some(v) => v.clone(),
                        None => cur.frequency.clone(),
                    },
                    start_date: match req.start_date {
                        Some(v) => v,
                        None => cur.start_date,
                    },
                    end_date: match req.end_date {
                        Some(v) => Some(v),
                        None => cur.end_date,
                    },
                    next_due_date: match req.next_due_date {
                        Some(v) => v,
                        None => cur.next_due_date,
                    },
                    is_active: match req.is_active {
                        Some(v) => v,
                        None => cur.is_active,
                    },
                    savings_goal_id: match &req.savings_goal_id {
                        Some(v) => Some(v.clone()),
                        None => match &cur.savings_goal_id {
                            Some(s) => Some(s.clone()),
                            None => None,
                        },
                    },
                    created_at: cur.created_at,
                    updated_at: now,
                };
                proof {
                    assert(merged == merged_recurring_transaction(self.rows@[i as int], *req, now));
                    crate::table::lemma_update_keeps_ids_unique(self.rows@, i as int, merged);
                }
                self.rows.set(i, merged);
                Ok(())
            },
            None => Err(ApiError::NotFound),
        }
    }

    /// Hard-deletes the scoped row. Fails `NotFound` when the identifier is
    /// absent from the principal's scope.
    pub fn delete_recurring_transaction(&mut self, auth: &AuthUser, id: &str) -> (r: Result<
        (),
        ApiError,
    >)
        requires
            old(self).wf(),
        ensures
            final(self).wf(),
            match r {
                Ok(()) => exists|i: int|
                    #![auto]
                    {
                        &&& 0 <= i < old(self).rows@.len()
                        &&& old(self).rows@[i].id@ == id@
                        &&& old(self).rows@[i].user_id@ == auth.user_id@
                        &&& final(self).rows@ == old(self).rows@.remove(i)
                    },
                Err(e) => e == ApiError::NotFound && final(self).rows@ == old(self).rows@
                    && !scoped_has(old(self).rows@, auth.user_id@, id@),
            },
            (r is Ok) == scoped_has(old(self).rows@, auth.user_id@, id@),
    {
        match find_scoped(&self.rows, auth.user_id.as_str(), id) {
            Some(i) => {
                proof {
                    crate::table::lemma_remove_keeps_ids_unique(self.rows@, i as int);
                }
                self.rows.remove(i);
                Ok(())
            },
            None => Err(ApiError::NotFound),
        }
    }
}

} // verus!
