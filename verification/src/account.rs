use vstd::prelude::*;
use vstd::pervasive::VecAdditionalExecFns;
use vstd::string::StringExecFns;

use crate::authorize::AuthUser;
use crate::errors::ApiError;
use crate::ids::fresh_id;
use crate::table::{
    count_owned, find_by_id, find_scoped, has_id, ids_unique, list_scoped, rows_sorted, scoped_has,
    Row,
};
use crate::text::str_eq;

verus! {

/// The kind of an account. The credit-card kind is the one with special
/// display arithmetic, which lives outside this crate.
#[derive(Clone, Copy, Debug, PartialEq, Eq, Structural)]
pub enum AccountType {
    Wallet,
    Bank,
    MobileBanking,
    Cash,
    Investment,
    Savings,
    CreditCard,
}

/// A stored account row.
///
/// Monetary fields (`balance`, `credit_limit`) carry the raw 64-bit encoding
/// of an IEEE-754 double: the repository stores and merges amounts without
/// ever computing on them, so an opaque word preserves them exactly.
/// Timestamps are UTC epoch seconds.
#[derive(Debug, PartialEq)]
pub struct Account {
    pub id: String,
    pub user_id: String,
    pub name: String,
    pub account_type: AccountType,
    pub balance: u64,
    pub currency: String,
    pub credit_limit: Option<u64>,
    pub created_at: i64,
    pub updated_at: i64,
}

/// A request to create an account. `id` may be supplied by the caller;
/// omitted optional fields take the documented defaults.
pub struct CreateAccountRequest {
    pub id: Option<String>,
    pub name: String,
    pub account_type: AccountType,
    pub balance: u64,
    pub currency: Option<String>,
    pub credit_limit: Option<u64>,
}

/// A partial update: only supplied fields change; absent fields keep their
/// stored value.
pub struct UpdateAccountRequest {
    pub name: Option<String>,
    pub account_type: Option<AccountType>,
    pub balance: Option<u64>,
    pub currency: Option<String>,
    pub credit_limit: Option<u64>,
}

impl Account {
    /// Whether this account is a credit card.
    pub fn is_credit_card(&self) -> (r: bool)
        ensures
            r == (self.account_type is CreditCard),
    {
        matches!(self.account_type, AccountType::CreditCard)
    }
}

impl Row for Account {
    open spec fn row_id(&self) -> Seq<char> {
        self.id@
    }

    open spec fn row_owner(&self) -> Seq<char> {
        self.user_id@
    }

    /// Accounts list newest first.
    open spec fn spec_le(&self, other: &Self) -> bool {
        self.created_at >= other.created_at
    }

    proof fn lemma_le_total(a: &Self, b: &Self) {
    }

    proof fn lemma_le_trans(a: &Self, b: &Self, c: &Self) {
    }

    fn id_matches(&self, id: &str) -> (r: bool) {
        str_eq(self.id.as_str(), id)
    }

    fn owner_matches(&self, owner: &str) -> (r: bool) {
        str_eq(self.user_id.as_str(), owner)
    }

    fn le(&self, other: &Self) -> (r: bool) {
        self.created_at >= other.created_at
    }

    fn duplicate(&self) -> (r: Self) {
        Account {
            id: self.id.clone(),
            user_id: self.user_id.clone(),
            name: self.name.clone(),
            account_type: self.account_type,
            balance: self.balance,
            currency: self.currency.clone(),
            credit_limit: self.credit_limit,
            created_at: self.created_at,
            updated_at: self.updated_at,
        }
    }
}

/// The result of merging a partial update into a stored account: supplied
/// fields are replaced, absent fields keep their stored value, `updated_at`
/// is refreshed, and `id`, `user_id` and `created_at` never change.
pub open spec fn merged_account(a: Account, r: UpdateAccountRequest, now: i64) -> Account {
    Account {
        id: a.id,
        user_id: a.user_id,
        name: match r.name {
            Some(n) => n,
            None => a.name,
        },
        account_type: match r.account_type {
            Some(t) => t,
            None => a.account_type,
        },
        balance: match r.balance {
            Some(b) => b,
            None => a.balance,
        },
        currency: match r.currency {
            Some(c) => c,
            None => a.currency,
        },
        credit_limit: match r.credit_limit {
            Some(l) => Some(l),
            None => a.credit_limit,
        },
        created_at: a.created_at,
        updated_at: now,
    }
}

/// An update that supplies no fields leaves every business field of the
/// stored account unchanged; only `updated_at` advances to the update
/// instant.
pub proof fn lemma_empty_update_preserves_fields(a: Account, r: UpdateAccountRequest, now: i64)
    requires
        r.name is None,
        r.account_type is None,
        r.balance is None,
        r.currency is None,
        r.credit_limit is None,
    ensures
        merged_account(a, r, now) == (Account { updated_at: now, ..a }),
{
}

/// A partial update changes exactly the supplied fields: each field present
/// in the request takes the requested value, each absent field keeps its
/// stored value, and the identifier, owner and creation time never change.
pub proof fn lemma_update_merges_fields(a: Account, r: UpdateAccountRequest, now: i64)
    ensures
        merged_account(a, r, now).id == a.id,
        merged_account(a, r, now).user_id == a.user_id,
        merged_account(a, r, now).created_at == a.created_at,
        merged_account(a, r, now).updated_at == now,
        merged_account(a, r, now).name == match r.name {
            Some(n) => n,
            None => a.name,
        },
        merged_account(a, r, now).account_type == match r.account_type {
            Some(t) => t,
            None => a.account_type,
        },
        merged_account(a, r, now).balance == match r.balance {
            Some(b) => b,
            None => a.balance,
        },
        merged_account(a, r, now).currency == match r.currency {
            Some(c) => c,
            None => a.currency,
        },
        merged_account(a, r, now).credit_limit == match r.credit_limit {
            Some(l) => Some(l),
            None => a.credit_limit,
        },
{
}

/// A mutating update made at or after the row's creation keeps the stamp
/// order `updated_at >= created_at`.
pub proof fn lemma_update_keeps_stamp_order(a: Account, r: UpdateAccountRequest, now: i64)
    requires
        a.created_at <= now,
    ensures
        merged_account(a, r, now).updated_at >= merged_account(a, r, now).created_at,
{
}

/// The accounts table: rows with pairwise distinct identifiers.
pub struct AccountTable {
    pub rows: Vec<Account>,
}

impl AccountTable {
    /// Well-formed: no two rows share an identifier.
    pub open spec fn wf(&self) -> bool {
        ids_unique(self.rows@)
    }

    /// An empty table.
    pub fn new() -> (r: Self)
        ensures
            r.wf(),
            r.rows@.len() == 0,
    {
        AccountTable { rows: Vec::new() }
    }

    /// Creates an account owned by the authenticated principal.
    ///
    /// The row takes the requested fields, the currency defaults to "BDT"
    /// when omitted, and both timestamps are set to `now`. An identifier
    /// that already exists — caller-supplied or generated — is a
    /// `Conflict`; a generated one cannot collide against an empty table.
    /// On success the new row is appended and returned.
    pub fn create_account(&mut self, auth: &AuthUser, req: CreateAccountRequest, now: i64) -> (r:
        Result<Account, ApiError>)
        requires
            old(self).wf(),
        ensures
            final(self).wf(),
            match r {
                Ok(a) => {
                    &&& !has_id(old(self).rows@, a.id@)
                    &&& final(self).rows@ == old(self).rows@.push(a)
                    &&& a.user_id@ == auth.user_id@
                    &&& a.name@ == req.name@
                    &&& a.account_type == req.account_type
                    &&& a.balance == req.balance
                    &&& a.currency@ == match req.currency {
                        Some(c) => c@,
                        None => "BDT"@,
                    }
                    &&& a.credit_limit == req.credit_limit
                    &&& a.created_at == now
                    &&& a.updated_at == now
                    &&& (req.id matches Some(s) ==> a.id@ == s@)
                },
                Err(ApiError::Conflict) => {
                    &&& final(self).rows@ == old(self).rows@
                    &&& old(self).rows@.len() > 0
                    &&& (req.id matches Some(s) ==> has_id(old(self).rows@, s@))
                },
                Err(_) => false,
            },
            req.id matches Some(s) && !has_id(old(self).rows@, s@) ==> r is Ok,
    {
        let CreateAccountRequest { id, name, account_type, balance, currency, credit_limit } = req;
        let chosen_id = match id {
            Some(s) => {
                if find_by_id(&self.rows, s.as_str()).is_some() {
                    return Err(ApiError::Conflict);
                }
                s
            },
            None => {
                let g = fresh_id();
                if find_by_id(&self.rows, g.as_str()).is_some() {
                    return Err(ApiError::Conflict);
                }
                g
            },
        };
        let account = Account {
            id: chosen_id,
            user_id: auth.user_id.clone(),
            name,
            account_type,
            balance,
            currency: match currency {
                Some(c) => c,
                None => String::from_str("BDT"),
            },
            credit_limit,
            created_at: now,
            updated_at: now,
        };
        let out = account.duplicate();
        proof {
            crate::table::lemma_push_keeps_ids_unique(self.rows@, account);
        }
        self.rows.push(account);
        Ok(out)
    }

    /// Lists the principal's accounts, newest first. Never fails; a
    /// principal who owns nothing gets an empty listing.
    pub fn get_accounts(&self, auth: &AuthUser) -> (r: Vec<Account>)
        ensures
            rows_sorted(r@),
            r@.len() == count_owned(self.rows@, auth.user_id@),
            forall|i: int| 0 <= i < r@.len() ==> #[trigger] r@[i].user_id@ == auth.user_id@,
            forall|i: int| 0 <= i < r@.len() ==> self.rows@.contains(#[trigger] r@[i]),
            forall|j: int|
                0 <= j < self.rows@.len() && #[trigger] self.rows@[j].user_id@ == auth.user_id@
                    ==> r@.contains(self.rows@[j]),
    {
        let r = list_scoped(&self.rows, auth.user_id.as_str());
        proof {
            assert forall|i: int| 0 <= i < r@.len() implies #[trigger] r@[i].user_id@
                == auth.user_id@ by {
                assert(r@[i].row_owner() == auth.user_id@);
            }
            assert forall|j: int|
                0 <= j < self.rows@.len() && #[trigger] self.rows@[j].user_id@
                    == auth.user_id@ implies r@.contains(self.rows@[j]) by {
                assert(self.rows@[j].row_owner() == auth.user_id@);
            }
        }
        r
    }

    /// The authenticated user's accounts, as the aggregated user-data
    /// route serves them: the same scoped listing, in the same order.
    pub fn get_user_accounts(&self, auth: &AuthUser) -> (r: Vec<Account>)
        ensures
            rows_sorted(r@),
            r@.len() == count_owned(self.rows@, auth.user_id@),
            forall|i: int| 0 <= i < r@.len() ==> #[trigger] r@[i].user_id@ == auth.user_id@,
            forall|i: int| 0 <= i < r@.len() ==> self.rows@.contains(#[trigger] r@[i]),
            forall|j: int|
                0 <= j < self.rows@.len() && #[trigger] self.rows@[j].user_id@ == auth.user_id@
                    ==> r@.contains(self.rows@[j]),
    {
        self.get_accounts(auth)
    }

    /// Fetches one account in the principal's scope. An identifier that
    /// does not exist and one that belongs to another principal fail the
    /// same way: `NotFound`.
    pub fn get_account(&self, auth: &AuthUser, id: &str) -> (r: Result<Account, ApiError>)
        ensures
            match r {
                Ok(a) => self.rows@.contains(a) && a.id@ == id@ && a.user_id@ == auth.user_id@,
                Err(e) => e == ApiError::NotFound && !scoped_has(self.rows@, auth.user_id@, id@),
            },
            (r is Ok) == scoped_has(self.rows@, auth.user_id@, id@),
    {
        match find_scoped(&self.rows, auth.user_id.as_str(), id) {
            Some(i) => {
                let a = self.rows[i].duplicate();
                assert(self.rows@.contains(a)) by {
                    assert(self.rows@[i as int] == a);
                }
                Ok(a)
            },
            None => Err(ApiError::NotFound),
        }
    }

    /// Merges a partial update into the scoped row and refreshes
    /// `updated_at`, even when the request supplies no fields. Fails
    /// `NotFound` when the identifier is absent from the principal's scope,
    /// leaving the table unchanged.
    pub fn update_account(
        &mut self,
        auth: &AuthUser,
        id: &str,
        req: &UpdateAccountRequest,
        now: i64,
    ) -> (r: Result<(), ApiError>)
        requires
            old(self).wf(),
        ensures
            final(self).wf(),
            match r {
                Ok(()) => exists|i: int|
                    #![auto]
                    {
                        &&& 0 <= i < old(self).rows@.len()
                        &&& old(self).rows@[i].id@ == id@
                        &&& old(self).rows@[i].user_id@ == auth.user_id@
                        &&& final(self).rows@ == old(self).rows@.update(
                            i,
                            merged_account(old(self).rows@[i], *req, now),
                        )
                    },
                Err(e) => e == ApiError::NotFound && final(self).rows@ == old(self).rows@
                    && !scoped_has(old(self).rows@, auth.user_id@, id@),
            },
            (r is Ok) == scoped_has(old(self).rows@, auth.user_id@, id@),
    {
        match find_scoped(&self.rows, auth.user_id.as_str(), id) {
            Some(i) => {
                let cur = &self.rows[i];
                let merged = Account {
                    id: cur.id.clone(),
                    user_id: cur.user_id.clone(),
                    name: match &req.name {
                        Some(n) => n.clone(),
                        None => cur.name.clone(),
                    },
                    account_type: match req.account_type {
                        Some(t) => t,
                        None => cur.account_type,
                    },
                    balance: match req.balance {
                        Some(b) => b,
                        None => cur.balance,
                    },
                    currency: match &req.currency {
                        Some(c) => c.clone(),
                        None => cur.currency.clone(),
                    },
                    credit_limit: match req.credit_limit {
                        Some(l) => Some(l),
                        None => cur.credit_limit,
                    },
                    created_at: cur.created_at,
                    updated_at: now,
                };
                proof {
                    assert(merged == merged_account(self.rows@[i as int], *req, now));
                    crate::table::lemma_update_keeps_ids_unique(self.rows@, i as int, merged);
                }
                self.rows.set(i, merged);
                Ok(())
            },
            None => Err(ApiError::NotFound),
        }
    }

    /// Hard-deletes the scoped row. Fails `NotFound` when the identifier is
    /// absent from the principal's scope, leaving the table unchanged.
    pub fn delete_account(&mut self, auth: &AuthUser, id: &str) -> (r: Result<(), ApiError>)
        requires
            old(self).wf(),
        ensures
            final(self).wf(),
            match r {
                Ok(()) => exists|i: int|
                    #![auto]
                    {
                        &&& 0 <= i < old(self).rows@.len()
                        &&& old(self).rows@[i].id@ == id@
                        &&& old(self).rows@[i].user_id@ == auth.user_id@
                        &&& final(self).rows@ == old(self).rows@.remove(i)
                    },
                Err(e) => e == ApiError::NotFound && final(self).rows@ == old(self).rows@
                    && !scoped_has(old(self).rows@, auth.user_id@, id@),
            },
            (r is Ok) == scoped_has(old(self).rows@, auth.user_id@, id@),
    {
        match find_scoped(&self.rows, auth.user_id.as_str(), id) {
            Some(i) => {
                proof {
                    crate::table::lemma_remove_keeps_ids_unique(self.rows@, i as int);
                }
                self.rows.remove(i);
                Ok(())
            },
            None => Err(ApiError::NotFound),
        }
    }
}

} // verus!
