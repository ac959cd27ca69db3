use vstd::prelude::*;
use vstd::pervasive::VecAdditionalExecFns;
use vstd::string::StringExecFns;

use crate::authorize::AuthUser;
use crate::errors::ApiError;
use crate::ids::fresh_id;
use crate::table::{
    count_owned, find_by_id, find_scoped, has_id, ids_unique, list_scoped, rows_sorted, scoped_has,
    Row,
};
use crate::text::str_eq;

verus! {

/// A stored loan row: money lent to a person. `amount` carries the raw
/// 64-bit encoding of an IEEE-754 double; dates and timestamps are UTC
/// epoch seconds.
#[derive(Debug, PartialEq)]
pub struct Loan {
    pub id: String,
    pub user_id: String,
    pub person_name: String,
    pub amount: u64,
    pub currency: String,
    pub loan_date: i64,
    pub return_date: Option<i64>,
    pub is_returned: bool,
    pub description: Option<String>,
    pub created_at: i64,
    pub updated_at: i64,
}

/// A request to record a loan; the identifier is always generated. An
/// omitted currency defaults to "BDT", an omitted returned flag to false.
pub struct CreateLoanRequest {
    pub person_name: String,
    pub amount: u64,
    pub currency: Option<String>,
    pub loan_date: i64,
    pub return_date: Option<i64>,
    pub is_returned: Option<bool>,
    pub description: Option<String>,
}

/// A partial update: only supplied fields change.
pub struct UpdateLoanRequest {
    pub person_name: Option<String>,
    pub amount: Option<u64>,
    pub currency: Option<String>,
    pub loan_date: Option<i64>,
    pub return_date: Option<i64>,
    pub is_returned: Option<bool>,
    pub description: Option<String>,
}

impl Row for Loan {
    open spec fn row_id(&self) -> Seq<char> {
        self.id@
    }

    open spec fn row_owner(&self) -> Seq<char> {
        self.user_id@
    }

    /// Loans list newest loan date first.
    open spec fn spec_le(&self, other: &Self) -> bool {
        self.loan_date >= other.loan_date
    }

    proof fn lemma_le_total(a: &Self, b: &Self) {
    }

    proof fn lemma_le_trans(a: &Self, b: &Self, c: &Self) {
    }

    fn id_matches(&self, id: &str) -> (r: bool) {
        str_eq(self.id.as_str(), id)
    }

    fn owner_matches(&self, owner: &str) -> (r: bool) {
        str_eq(self.user_id.as_str(), owner)
    }

    fn le(&self, other: &Self) -> (r: bool) {
        self.loan_date >= other.loan_date
    }

    fn duplicate(&self) -> (r: Self) {
        Loan {
            id: self.id.clone(),
            user_id: self.user_id.clone(),
            person_name: self.person_name.clone(),
            amount: self.amount,
            currency: self.currency.clone(),
            loan_date: self.loan_date,
            return_date: self.return_date,
            is_returned: self.is_returned,
            description: match &self.description {
                Some(d) => Some(d.clone()),
                None => None,
            },
            created_at: self.created_at,
            updated_at: self.updated_at,
        }
    }
}

/// The result of merging a partial update into a stored loan: supplied
/// fields are replaced, absent fields keep their stored value, `updated_at`
/// is refreshed, and `id`, `user_id` and `created_at` never change.
pub open spec fn merged_loan(a: Loan, r: UpdateLoanRequest, now: i64) -> Loan {
    Loan {
        id: a.id,
        user_id: a.user_id,
        person_name: match r.person_name {
            Some(v) => v,
            None => a.person_name,
        },
        amount: match r.amount {
            Some(v) => v,
            None => a.amount,
        },
        currency: match r.currency {
            Some(v) => v,
            None => a.currency,
        },
        loan_date: match r.loan_date {
            Some(v) => v,
            None => a.loan_date,
        },
        return_date: match r.return_date {
            Some(v) => Some(v),
            None => a.return_date,
        },
        is_returned: match r.is_returned {
            Some(v) => v,
            None => a.is_returned,
        },
        description: match r.description {
            Some(v) => Some(v),
            None => a.description,
        },
        created_at: a.created_at,
        updated_at: now,
    }
}

/// An update that supplies no fields leaves every business field of the
/// stored loan unchanged; only `updated_at` advances.
pub proof fn lemma_empty_loan_update(a: Loan, r: UpdateLoanRequest, now: i64)
    requires
        r.person_name is None,
        r.amount is None,
        r.currency is None,
        r.loan_date is None,
        r.return_date is None,
        r.is_returned is None,
        r.description is None,
    ensures
        merged_loan(a, r, now) == (Loan { updated_at: now, ..a }),
{
}

/// The loans table: rows with pairwise distinct identifiers.
pub struct LoanTable {
    pub rows: Vec<Loan>,
}

impl LoanTable {
    /// Well-formed: no two rows share an identifier.
    pub open spec fn wf(&self) -> bool {
        ids_unique(self.rows@)
    }

    /// An empty table.
    pub fn new() -> (r: Self)
        ensures
            r.wf(),
            r.rows@.len() == 0,
    {
        LoanTable { rows: Vec::new() }
    }

    /// Records a loan owned by the authenticated principal, under a
    /// generated identifier, with the documented defaults and both
    /// timestamps set to `now`. A generated identifier that collides is a
    /// `Conflict`, which cannot happen against an empty table.
    pub fn create_loan(&mut self, auth: &AuthUser, req: CreateLoanRequest, now: i64) -> (r: Result<
        Loan,
        ApiError,
    >)
        requires
            old(self).wf(),
        ensures
            final(self).wf(),
            match r {
                Ok(l) => {
                    &&& !has_id(old(self).rows@, l.id@)
                    &&& final(self).rows@ == old(self).rows@.push(l)
                    &&& l.user_id@ == auth.user_id@
                    &&& l.person_name@ == req.person_name@
                    &&& l.amount == req.amount
                    &&& l.currency@ == match req.currency {
                        Some(c) => c@,
                        None => "BDT"@,
                    }
                    &&& l.loan_date == req.loan_date
                    &&& l.return_date == req.return_date
                    &&& l.is_returned == match req.is_returned {
                        Some(b) => b,
                        None => false,
                    }
                    &&& l.description == req.description
                    &&& l.created_at == now
                    &&& l.updated_at == now
                },
                Err(e) => e == ApiError::Conflict && final(self).rows@ == old(self).rows@
                    && old(self).rows@.len() > 0,
            },
    {
        let g = fresh_id();
        if find_by_id(&self.rows, g.as_str()).is_some() {
            return Err(ApiError::Conflict);
        }
        let row = Loan {
            id: g,
            user_id: auth.user_id.clone(),
            person_name: req.person_name,
            amount: req.amount,
            currency: match req.currency {
                Some(c) => c,
                None => String::from_str("BDT"),
            },
            loan_date: req.loan_date,
            return_date: req.return_date,
            is_returned: match req.is_returned {
                Some(b) => b,
                None => false,
            },
            description: req.description,
            created_at: now,
            updated_at: now,
        };
        let out = row.duplicate();
        proof {
            crate::table::lemma_push_keeps_ids_unique(self.rows@, row);
        }
        self.rows.push(row);
        Ok(out)
    }

    /// Lists the principal's loans, newest loan date first. Never fails.
    pub fn get_loans(&self, auth: &AuthUser) -> (r: Vec<Loan>)
        ensures
            rows_sorted(r@),
            r@.len() == count_owned(self.rows@, auth.user_id@),
            forall|i: int| 0 <= i < r@.len() ==> #[trigger] r@[i].user_id@ == auth.user_id@,
            forall|i: int| 0 <= i < r@.len() ==> self.rows@.contains(#[trigger] r@[i]),
            forall|j: int|
                0 <= j < self.rows@.len() && #[trigger] self.rows@[j].user_id@ == auth.user_id@
                    ==> r@.contains(self.rows@[j]),
    {
        let r = list_scoped(&self.rows, auth.user_id.as_str());
        proof {
            assert forall|i: int| 0 <= i < r@.len() implies #[trigger] r@[i].user_id@
                == auth.user_id@ by {
                assert(r@[i].row_owner() == auth.user_id@);
            }
            assert forall|j: int|
                0 <= j < self.rows@.len() && #[trigger] self.rows@[j].user_id@
                    == auth.user_id@ implies r@.contains(self.rows@[j]) by {
                assert(self.rows@[j].row_owner() == auth.user_id@);
            }
        }
        r
    }

    /// The authenticated user's loans, as the aggregated user-data
    /// route serves them: the same scoped listing, in the same order.
    pub fn get_user_loans(&self, auth: &AuthUser) -> (r: Vec<Loan>)
        ensures
            rows_sorted(r@),
            r@.len() == count_owned(self.rows@, auth.user_id@),
            forall|i: int| 0 <= i < r@.len() ==> #[trigger] r@[i].user_id@ == auth.user_id@,
            forall|i: int| 0 <= i < r@.len() ==> self.rows@.contains(#[trigger] r@[i]),
            forall|j: int|
                0 <= j < self.rows@.len() && #[trigger] self.rows@[j].user_id@ == auth.user_id@
                    ==> r@.contains(self.rows@[j]),
    {
        self.get_loans(auth)
    }

    /// Fetches one loan in the principal's scope; a foreign or unknown
    /// identifier is `NotFound`.
    pub fn get_loan(&self, auth: &AuthUser, id: &str) -> (r: Result<Loan, ApiError>)
        ensures
            match r {
                Ok(l) => self.rows@.contains(l) && l.id@ == id@ && l.user_id@ == auth.user_id@,
                Err(e) => e == ApiError::NotFound && !scoped_has(self.rows@, auth.user_id@, id@),
            },
            (r is Ok) == scoped_has(self.rows@, auth.user_id@, id@),
    {
        match find_scoped(&self.rows, auth.user_id.as_str(), id) {
            Some(i) => {
                let l = self.rows[i].duplicate();
                assert(self.rows@.contains(l)) by {
                    assert(self.rows@[i as int] == l);
                }
                Ok(l)
            },
            None => Err(ApiError::NotFound),
        }
    }

    /// Merges a partial update into the scoped row and refreshes
    /// `updated_at`. Fails `NotFound` when the identifier is absent from
    /// the principal's scope.
    pub fn update_loan(
        &mut self,
        auth: &AuthUser,
        id: &str,
        req: &UpdateLoanRequest,
        now: i64,
    ) -> (r: Result<(), ApiError>)
        requires
            old(self).wf(),
        ensures
            final(self).wf(),
            match r {
                Ok(()) => exists|i: int|
                    #![auto]
                    {
                        &&& 0 <= i < old(self).rows@.len()
                        &&& old(self).rows@[i].id@ == id@
                        &&& old(self).rows@[i].user_id@ == auth.user_id@
                        &&& final(self).rows@ == old(self).rows@.update(
                            i,
                            merged_loan(old(self).rows@[i], *req, now),
                        )
                    },
                Err(e) => e == ApiError::NotFound && final(self).rows@ == old(self).rows@
                    && !scoped_has(old(self).rows@, auth.user_id@, id@),
            },
            (r is Ok) == scoped_has(old(self).rows@, auth.user_id@, id@),
    {
        match find_scoped(&self.rows, auth.user_id.as_str(), id) {
            Some(i) => {
                let cur = &self.rows[i];
                let merged = Loan {
                    id: cur.id.clone(),
                    user_id: cur.user_id.clone(),
                    person_name: match &req.person_name {
                        Some(v) => v.clone(),
                        None => cur.person_name.clone(),
                    },
                    amount: match req.amount {
                        Some(v) => v,
                        None => cur.amount,
                    },
                    currency: match &req.currency {
                        Some(v) => v.clone(),
                        None => cur.currency.clone(),
                    },
                    loan_date: match req.loan_date {
                        Some(v) => v,
                        None => cur.loan_date,
                    },
                    return_date: match req.return_date {
                        Some(v) => Some(v),
                        None => cur.return_date,
                    },
                    is_returned: match req.is_returned {
                        Some(v) => v,
                        None => cur.is_returned,
                    },
                    description: match &req.description {
                        Some(v) => Some(v.clone()),
                        None => match &cur.description {
                            Some(d) => Some(d.clone()),
                            None => None,
                        },
                    },
                    created_at: cur.created_at,
                    updated_at: now,
                };
                proof {
                    assert(merged == merged_loan(self.rows@[i as int], *req, now));
                    crate::table::lemma_update_keeps_ids_unique(self.rows@, i as int, merged);
                }
                self.rows.set(i, merged);
                Ok(())
            },
            None => Err(ApiError::NotFound),
        }
    }

    /// Hard-deletes the scoped row. Fails `NotFound` when the identifier is
    /// absent from the principal's scope.
    pub fn delete_loan(&mut self, auth: &AuthUser, id: &str) -> (r: Result<(), ApiError>)
        requires
            old(self).wf(),
        ensures
            final(self).wf(),
            match r {
                Ok(()) => exists|i: int|
                    #![auto]
                    {
                        &&& 0 <= i < old(self).rows@.len()
                        &&& old(self).rows@[i].id@ == id@
                        &&& old(self).rows@[i].user_id@ == auth.user_id@
                        &&& final(self).rows@ == old(self).rows@.remove(i)
                    },
                Err(e) => e == ApiError::NotFound && final(self).rows@ == old(self).rows@
                    && !scoped_has(old(self).rows@, auth.user_id@, id@),
            },
            (r is Ok) == scoped_has(old(self).rows@, auth.user_id@, id@),
    {
        match find_scoped(&self.rows, auth.user_id.as_str(), id) {
            Some(i) => {
                proof {
                    crate::table::lemma_remove_keeps_ids_unique(self.rows@, i as int);
                }
                self.rows.remove(i);
                Ok(())
            },
            None => Err(ApiError::NotFound),
        }
    }
}

} // verus!
