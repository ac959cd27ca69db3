use vstd::prelude::*;
use vstd::pervasive::VecAdditionalExecFns;
use vstd::string::StringExecFns;

use crate::authorize::AuthUser;
use crate::errors::ApiError;
use crate::ids::fresh_id;
use crate::table::{
    count_owned, find_scoped, has_id, ids_unique, list_scoped, rows_sorted, scoped_has, Row,
};
use crate::text::str_eq;

verus! {

/// The direction of a transaction.
#[derive(Clone, Copy, Debug, PartialEq, Eq, Structural)]
pub enum TransactionType {
    Income,
    Expense,
    Transfer,
}

/// A stored transaction row. `amount` carries the raw 64-bit encoding of an
/// IEEE-754 double; `date` and `created_at` are UTC epoch seconds. A
/// transaction has no `updated_at`: updates merge fields without stamping.
#[derive(Debug, PartialEq)]
pub struct Transaction {
    pub id: String,
    pub user_id: String,
    pub account_id: String,
    pub transaction_type: TransactionType,
    pub amount: u64,
    pub currency: String,
    pub category: Option<String>,
    pub description: Option<String>,
    pub date: i64,
    pub created_at: i64,
}

/// A request to record a transaction; the identifier is always generated.
/// An omitted currency defaults to "BDT", an omitted date to the creation
/// instant.
pub struct CreateTransactionRequest {
    pub account_id: String,
    pub transaction_type: TransactionType,
    pub amount: u64,
    pub currency: Option<String>,
    pub category: Option<String>,
    pub description: Option<String>,
    pub date: Option<i64>,
}

/// A partial update: only supplied fields change.
pub struct UpdateTransactionRequest {
    pub account_id: Option<String>,
    pub transaction_type: Option<TransactionType>,
    pub amount: Option<u64>,
    pub currency: Option<String>,
    pub category: Option<String>,
    pub description: Option<String>,
    pub date: Option<i64>,
}

impl Row for Transaction {
    open spec fn row_id(&self) -> Seq<char> {
        self.id@
    }

    open spec fn row_owner(&self) -> Seq<char> {
        self.user_id@
    }

    /// Transactions list newest date first.
    open spec fn spec_le(&self, other: &Self) -> bool {
        self.date >= other.date
    }

    proof fn lemma_le_total(a: &Self, b: &Self) {
    }

    proof fn lemma_le_trans(a: &Self, b: &Self, c: &Self) {
    }

    fn id_matches(&self, id: &str) -> (r: bool) {
        str_eq(self.id.as_str(), id)
    }

    fn owner_matches(&self, owner: &str) -> (r: bool) {
        str_eq(self.user_id.as_str(), owner)
    }

    fn le(&self, other: &Self) -> (r: bool) {
        self.date >= other.date
    }

    fn duplicate(&self) -> (r: Self) {
        Transaction {
            id: self.id.clone(),
            user_id: self.user_id.clone(),
            account_id: self.account_id.clone(),
            transaction_type: self.transaction_type,
            amount: self.amount,
            currency: self.currency.clone(),
            category: match &self.category {
                Some(c) => Some(c.clone()),
                None => None,
            },
            description: match &self.description {
                Some(d) => Some(d.clone()),
                None => None,
            },
            date: self.date,
            created_at: self.created_at,
        }
    }
}

/// The result of merging a partial update into a stored transaction:
/// supplied fields are replaced, absent fields keep their stored value, and
/// `id`, `user_id` and `created_at` never change. A transaction carries no
/// `updated_at` to refresh.
pub open spec fn merged_transaction(a: Transaction, r: UpdateTransactionRequest) -> Transaction {
    Transaction {
        id: a.id,
        user_id: a.user_id,
        account_id: match r.account_id {
            Some(v) => v,
            None => a.account_id,
        },
        transaction_type: match r.transaction_type {
            Some(v) => v,
            None => a.transaction_type,
        },
        amount: match r.amount {
            Some(v) => v,
            None => a.amount,
        },
        currency: match r.currency {
            Some(v) => v,
            None => a.currency,
        },
        category: match r.category {
            Some(v) => Some(v),
            None => a.category,
        },
        description: match r.description {
            Some(v) => Some(v),
            None => a.description,
        },
        date: match r.date {
            Some(v) => v,
            None => a.date,
        },
        created_at: a.created_at,
    }
}

/// An update that supplies no fields leaves the stored transaction
/// entirely unchanged: a transaction carries no `updated_at` to advance.
pub proof fn lemma_empty_transaction_update(a: Transaction, r: UpdateTransactionRequest)
    requires
        r.account_id is None,
        r.transaction_type is None,
        r.amount is None,
        r.currency is None,
        r.category is None,
        r.description is None,
        r.date is None,
    ensures
        merged_transaction(a, r) == a,
{
}

/// The transactions table: rows with pairwise distinct identifiers.
pub struct TransactionTable {
    pub rows: Vec<Transaction>,
}

impl TransactionTable {
    /// Well-formed: no two rows share an identifier.
    pub open spec fn wf(&self) -> bool {
        ids_unique(self.rows@)
    }

    /// An empty table.
    pub fn new() -> (r: Self)
        ensures
            r.wf(),
            r.rows@.len() == 0,
    {
        TransactionTable { rows: Vec::new() }
    }

    /// Records a transaction owned by the authenticated principal, under a
    /// generated identifier, with the currency defaulting to "BDT" and the
    /// date to `now` when omitted. A generated identifier that collides is
    /// a `Conflict`, which cannot happen against an empty table.
    pub fn create_transaction(
        &mut self,
        auth: &AuthUser,
        req: CreateTransactionRequest,
        now: i64,
    ) -> (r: Result<Transaction, ApiError>)
        requires
            old(self).wf(),
        ensures
            final(self).wf(),
            match r {
                Ok(t) => {
                    &&& !has_id(old(self).rows@, t.id@)
                    &&& final(self).rows@ == old(self).rows@.push(t)
                    &&& t.user_id@ == auth.user_id@
                    &&& t.account_id@ == req.account_id@
                    &&& t.transaction_type == req.transaction_type
                    &&& t.amount == req.amount
                    &&& t.currency@ == match req.currency {
                        Some(c) => c@,
                        None => "BDT"@,
                    }
                    &&& t.category == req.category
                    &&& t.description == req.description
                    &&& t.date == match req.date {
                        Some(d) => d,
                        None => now,
                    }
                    &&& t.created_at == now
                },
                Err(e) => e == ApiError::Conflict && final(self).rows@ == old(self).rows@
                    && old(self).rows@.len() > 0,
            },
    {
        let g = fresh_id();
        if crate::table::find_by_id(&self.rows, g.as_str()).is_some() {
            return Err(ApiError::Conflict);
        }
        let row = Transaction {
            id: g,
            user_id: auth.user_id.clone(),
            account_id: req.account_id,
            transaction_type: req.transaction_type,
            amount: req.amount,
            currency: match req.currency {
                Some(c) => c,
                None => String::from_str("BDT"),
            },
            category: req.category,
            description: req.description,
            date: match req.date {
                Some(d) => d,
                None => now,
            },
            created_at: now,
        };
        let out = row.duplicate();
        proof {
            crate::table::lemma_push_keeps_ids_unique(self.rows@, row);
        }
        self.rows.push(row);
        Ok(out)
    }

    /// Lists the principal's transactions, newest date first. Never fails.
    pub fn get_transactions(&self, auth: &AuthUser) -> (r: Vec<Transaction>)
        ensures
            rows_sorted(r@),
            r@.len() == count_owned(self.rows@, auth.user_id@),
            forall|i: int| 0 <= i < r@.len() ==> #[trigger] r@[i].user_id@ == auth.user_id@,
            forall|i: int| 0 <= i < r@.len() ==> self.rows@.contains(#[trigger] r@[i]),
            forall|j: int|
                0 <= j < self.rows@.len() && #[trigger] self.rows@[j].user_id@ == auth.user_id@
                    ==> r@.contains(self.rows@[j]),
    {
        let r = list_scoped(&self.rows, auth.user_id.as_str());
        proof {
            assert forall|i: int| 0 <= i < r@.len() implies #[trigger] r@[i].user_id@
                == auth.user_id@ by {
                assert(r@[i].row_owner() == auth.user_id@);
            }
            assert forall|j: int|
                0 <= j < self.rows@.len() && #[trigger] self.rows@[j].user_id@
                    == auth.user_id@ implies r@.contains(self.rows@[j]) by {
                assert(self.rows@[j].row_owner() == auth.user_id@);
            }
        }
        r
    }

    /// The authenticated user's transactions, as the aggregated user-data
    /// route serves them: the same scoped listing, in the same order.
    pub fn get_user_transactions(&self, auth: &AuthUser) -> (r: Vec<Transaction>)
        ensures
            rows_sorted(r@),
            r@.len() == count_owned(self.rows@, auth.user_id@),
            forall|i: int| 0 <= i < r@.len() ==> #[trigger] r@[i].user_id@ == auth.user_id@,
            forall|i: int| 0 <= i < r@.len() ==> self.rows@.contains(#[trigger] r@[i]),
            forall|j: int|
                0 <= j < self.rows@.len() && #[trigger] self.rows@[j].user_id@ == auth.user_id@
                    ==> r@.contains(self.rows@[j]),
    {
        self.get_transactions(auth)
    }

    /// Fetches one transaction in the principal's scope; a foreign or
    /// unknown identifier is `NotFound`.
    pub fn get_transaction(&self, auth: &AuthUser, id: &str) -> (r: Result<Transaction, ApiError>)
        ensures
            match r {
                Ok(t) => self.rows@.contains(t) && t.id@ == id@ && t.user_id@ == auth.user_id@,
                Err(e) => e == ApiError::NotFound && !scoped_has(self.rows@, auth.user_id@, id@),
            },
            (r is Ok) == scoped_has(self.rows@, auth.user_id@, id@),
    {
        match find_scoped(&self.rows, auth.user_id.as_str(), id) {
            Some(i) => {
                let t = self.rows[i].duplicate();
                assert(self.rows@.contains(t)) by {
                    assert(self.rows@[i as int] == t);
                }
                Ok(t)
            },
            None => Err(ApiError::NotFound),
        }
    }

    /// Merges a partial update into the scoped row. Fails `NotFound` when
    /// the identifier is absent from the principal's scope.
    pub fn update_transaction(
        &mut self,
        auth: &AuthUser,
        id: &str,
        req: &UpdateTransactionRequest,
    ) -> (r: Result<(), ApiError>)
        requires
            old(self).wf(),
        ensures
            final(self).wf(),
            match r {
                Ok(()) => exists|i: int|
                    #![auto]
                    {
                        &&& 0 <= i < old(self).rows@.len()
                        &&& old(self).rows@[i].id@ == id@
                        &&& old(self).rows@[i].user_id@ == auth.user_id@
                        &&& final(self).rows@ == old(self).rows@.update(
                            i,
                            merged_transaction(old(self).rows@[i], *req),
                        )
                    },
                Err(e) => e == ApiError::NotFound && final(self).rows@ == old(self).rows@
                    && !scoped_has(old(self).rows@, auth.user_id@, id@),
            },
            (r is Ok) == scoped_has(old(self).rows@, auth.user_id@, id@),
    {
        match find_scoped(&self.rows, auth.user_id.as_str(), id) {
            Some(i) => {
                let cur = &self.rows[i];
                let merged = Transaction {
                    id: cur.id.clone(),
                    user_id: cur.user_id.clone(),
                    account_id: match &req.account_id {
                        Some(v) => v.clone(),
                        None => cur.account_id.clone(),
                    },
                    transaction_type: match req.transaction_type {
                        Some(v) => v,
                        None => cur.transaction_type,
                    },
                    amount: match req.amount {
                        Some(v) => v,
                        None => cur.amount,
                    },
                    currency: match &req.currency {
                        Some(v) => v.clone(),
                        None => cur.currency.clone(),
                    },
                    category: match &req.category {
                        Some(v) => Some(v.clone()),
                        None => match &cur.category {
                            Some(c) => Some(c.clone()),
                            None => None,
                        },
                    },
                    description: match &req.description {
                        Some(v) => Some(v.clone()),
                        None => match &cur.description {
                            Some(d) => Some(d.clone()),
                            None => None,
                        },
                    },
                    date: match req.date {
                        Some(v) => v,
                        None => cur.date,
                    },
                    created_at: cur.created_at,
                };
                proof {
                    assert(merged == merged_transaction(self.rows@[i as int], *req));
                    crate::table::lemma_update_keeps_ids_unique(self.rows@, i as int, merged);
                }
                self.rows.set(i, merged);
                Ok(())
            },
            None => Err(ApiError::NotFound),
        }
    }

    /// Hard-deletes the scoped row. Fails `NotFound` when the identifier is
    /// absent from the principal's scope.
    pub fn delete_transaction(&mut self, auth: &AuthUser, id: &str) -> (r: Result<(), ApiError>)
        requires
            old(self).wf(),
        ensures
            final(self).wf(),
            match r {
                Ok(()) => exists|i: int|
                    #![auto]
                    {
                        &&& 0 <= i < old(self).rows@.len()
                        &&& old(self).rows@[i].id@ == id@
                        &&& old(self).rows@[i].user_id@ == auth.user_id@
                        &&& final(self).rows@ == old(self).rows@.remove(i)
                    },
                Err(e) => e == ApiError::NotFound && final(self).rows@ == old(self).rows@
                    && !scoped_has(old(self).rows@, auth.user_id@, id@),
            },
            (r is Ok) == scoped_has(old(self).rows@, auth.user_id@, id@),
    {
        match find_scoped(&self.rows, auth.user_id.as_str(), id) {
            Some(i) => {
                proof {
                    crate::table::lemma_remove_keeps_ids_unique(self.rows@, i as int);
                }
                self.rows.remove(i);
                Ok(())
            },
            None => Err(ApiError::NotFound),
        }
    }
}

/// The fixed category names offered for transactions.
pub struct TransactionCategories;

impl TransactionCategories {
    /// The income category names.
    pub fn get_income_categories() -> (r: Vec<&'static str>)
        ensures
            r@.len() == 5,
            r@[0]@ == "Salary"@,
            r@[1]@ == "Business"@,
            r@[2]@ == "Investment"@,
            r@[3]@ == "Gift"@,
            r@[4]@ == "Other Income"@,
    {
        let mut v: Vec<&'static str> = Vec::new();
        v.push("Salary");
        v.push("Business");
        v.push("Investment");
        v.push("Gift");
        v.push("Other Income");
        v
    }

    /// The expense category names.
    pub fn get_expense_categories() -> (r: Vec<&'static str>)
        ensures
            r@.len() == 8,
            r@[0]@ == "Food"@,
            r@[1]@ == "Transportation"@,
            r@[2]@ == "Shopping"@,
            r@[3]@ == "Entertainment"@,
            r@[4]@ == "Bills"@,
            r@[5]@ == "Medical"@,
            r@[6]@ == "Education"@,
            r@[7]@ == "Other Expense"@,
    {
        let mut v: Vec<&'static str> = Vec::new();
        v.push("Food");
        v.push("Transportation");
        v.push("Shopping");
        v.push("Entertainment");
        v.push("Bills");
        v.push("Medical");
        v.push("Education");
        v.push("Other Expense");
        v
    }
}

} // verus!
