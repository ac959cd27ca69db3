use vstd::prelude::*;
use vstd::pervasive::VecAdditionalExecFns;
use vstd::string::StringExecFns;

use crate::authorize::AuthUser;
use crate::text::str_eq;

verus! {

/// A stored preference row, keyed by the owning principal. `updated_at` is
/// UTC epoch seconds.
#[derive(Debug, PartialEq)]
pub struct UserPreference {
    pub user_id: String,
    pub display_currency: String,
    pub updated_at: i64,
}

impl UserPreference {
    /// A field-by-field copy, equal to the value it copies.
    pub fn duplicate(&self) -> (r: Self)
        ensures
            r == *self,
    {
        UserPreference {
            user_id: self.user_id.clone(),
            display_currency: self.display_currency.clone(),
            updated_at: self.updated_at,
        }
    }
}

/// A typed preference update; an omitted currency falls back to the
/// default "BDT".
pub struct UpdatePreferenceRequest {
    pub display_currency: Option<String>,
}

/// Some preference row belongs to this principal.
pub open spec fn pref_exists(s: Seq<UserPreference>, owner: Seq<char>) -> bool {
    exists|i: int| 0 <= i < s.len() && s[i].user_id@ == owner
}

/// No two preference rows share an owner.
pub open spec fn pref_owners_unique(s: Seq<UserPreference>) -> bool {
    forall|i: int, j: int| 0 <= i < j < s.len() ==> s[i].user_id@ != s[j].user_id@
}

/// The preferences table: at most one row per principal.
pub struct PreferenceTable {
    pub rows: Vec<UserPreference>,
}

impl PreferenceTable {
    /// Well-formed: no two rows share an owner.
    pub open spec fn wf(&self) -> bool {
        pref_owners_unique(self.rows@)
    }

    /// An empty table.
    pub fn new() -> (r: Self)
        ensures
            r.wf(),
            r.rows@.len() == 0,
    {
        PreferenceTable { rows: Vec::new() }
    }

    /// Finds the principal's preference row.
    fn find_for(&self, owner: &str) -> (r: Option<usize>)
        ensures
            match r {
                Some(i) => i < self.rows@.len() && self.rows@[i as int].user_id@ == owner@,
                None => !pref_exists(self.rows@, owner@),
            },
    {
        let mut i: usize = 0;
        while i < self.rows.len()
            invariant
                i <= self.rows@.len(),
                forall|j: int| 0 <= j < i ==> !(#[trigger] self.rows@[j].user_id@ == owner@),
            decreases self.rows@.len() - i,
        {
            if str_eq(self.rows[i].user_id.as_str(), owner) {
                return Some(i);
            }
            i += 1;
        }
        None
    }

    /// Fetches the principal's saved preferences, or nothing when none
    /// were ever saved; `display_preferences` applies the default. Never
    /// fails.
    pub fn get_preferences(&self, auth: &AuthUser) -> (r: Option<UserPreference>)
        ensures
            match r {
                Some(p) => self.rows@.contains(p) && p.user_id@ == auth.user_id@,
                None => !pref_exists(self.rows@, auth.user_id@),
            },
            (r is Some) == pref_exists(self.rows@, auth.user_id@),
    {
        match self.find_for(auth.user_id.as_str()) {
            Some(i) => {
                let p = self.rows[i].duplicate();
                assert(self.rows@.contains(p)) by {
                    assert(self.rows@[i as int] == p);
                }
                Some(p)
            },
            None => None,
        }
    }

    /// The preference view served to a principal: the display currency to
    /// show and the instant it was last saved, if ever. A principal with
    /// no saved row is served the default currency "BDT" and no instant.
    /// Never fails.
    pub fn display_preferences(&self, auth: &AuthUser) -> (r: (String, Option<i64>))
        ensures
            pref_exists(self.rows@, auth.user_id@) ==> exists|i: int|
                #![auto]
                {
                    &&& 0 <= i < self.rows@.len()
                    &&& self.rows@[i].user_id@ == auth.user_id@
                    &&& r.0@ == self.rows@[i].display_currency@
                    &&& r.1 == Some(self.rows@[i].updated_at)
                },
            !pref_exists(self.rows@, auth.user_id@) ==> r.0@ == "BDT"@ && r.1 is None,
    {
        match self.get_preferences(auth) {
            Some(p) => (p.display_currency, Some(p.updated_at)),
            None => (String::from_str("BDT"), None),
        }
    }

    /// Saves the principal's preferences: the supplied currency, or the
    /// default "BDT" when omitted, stamped with `now`. The row is updated
    /// in place when one exists and inserted otherwise; the applied state
    /// is returned. Never fails.
    pub fn update_preferences(
        &mut self,
        auth: &AuthUser,
        req: &UpdatePreferenceRequest,
        now: i64,
    ) -> (r: UserPreference)
        requires
            old(self).wf(),
        ensures
            final(self).wf(),
            r.user_id@ == auth.user_id@,
            r.display_currency@ == match req.display_currency {
                Some(c) => c@,
                None => "BDT"@,
            },
            r.updated_at == now,
            pref_exists(old(self).rows@, auth.user_id@) ==> exists|i: int|
                #![auto]
                {
                    &&& 0 <= i < old(self).rows@.len()
                    &&& old(self).rows@[i].user_id@ == auth.user_id@
                    &&& final(self).rows@ == old(self).rows@.update(i, r)
                },
            !pref_exists(old(self).rows@, auth.user_id@) ==> final(self).rows@ == old(
                self,
            ).rows@.push(r),
    {
        let row = UserPreference {
            user_id: auth.user_id.clone(),
            display_currency: match &req.display_currency {
                Some(c) => c.clone(),
                None => String::from_str("BDT"),
            },
            updated_at: now,
        };
        let out = row.duplicate();
        match self.find_for(auth.user_id.as_str()) {
            Some(i) => {
                proof {
                    let s = self.rows@;
                    let t = s.update(i as int, row);
                    assert forall|p: int, q: int| 0 <= p < q < t.len() implies t[p].user_id@
                        != t[q].user_id@ by {
                        assert(s[p].user_id@ != s[q].user_id@);
                        assert(s[i as int].user_id@ == row.user_id@);
                    }
                }
                self.rows.set(i, row);
            },
            None => {
                proof {
                    let s = self.rows@;
                    let t = s.push(row);
                    assert forall|p: int, q: int| 0 <= p < q < t.len() implies t[p].user_id@
                        != t[q].user_id@ by {
                        if q < s.len() {
                            assert(s[p].user_id@ != s[q].user_id@);
                        } else {
                            assert(t[q] == row);
                            assert(!(0 <= p < s.len() && s[p].user_id@ == row.user_id@));
                        }
                    }
                }
                self.rows.push(row);
            },
        }
        out
    }
}

} // verus!
