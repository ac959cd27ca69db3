use vstd::prelude::*;

use crate::text::str_eq;

verus! {

/// A stored user row. Timestamps are UTC epoch seconds; the password is
/// kept only as its bcrypt hash.
#[derive(Debug)]
pub struct User {
    pub id: String,
    pub name: String,
    pub email: String,
    pub password_hash: String,
    pub created_at: i64,
    pub updated_at: i64,
}

impl User {
    /// A field-by-field copy, equal to the value it copies.
    pub fn duplicate(&self) -> (r: Self)
        ensures
            r == *self,
    {
        User {
            id: self.id.clone(),
            name: self.name.clone(),
            email: self.email.clone(),
            password_hash: self.password_hash.clone(),
            created_at: self.created_at,
            updated_at: self.updated_at,
        }
    }
}

/// A strict signup request: every field is required.
pub struct CreateUserRequest {
    pub name: String,
    pub email: String,
    pub password: String,
}

/// A strict login request.
pub struct LoginRequest {
    pub email: String,
    pub password: String,
}

/// The user profile handed back to callers: the stored row without the
/// password hash.
#[derive(Debug)]
pub struct UserResponse {
    pub id: String,
    pub name: String,
    pub email: String,
    pub created_at: i64,
    pub updated_at: i64,
}

impl From<User> for UserResponse {
    fn from(user: User) -> (r: Self) {
        UserResponse {
            id: user.id,
            name: user.name,
            email: user.email,
            created_at: user.created_at,
            updated_at: user.updated_at,
        }
    }
}

impl vstd::std_specs::convert::FromSpecImpl<User> for UserResponse {
    open spec fn obeys_from_spec() -> bool {
        true
    }

    open spec fn from_spec(user: User) -> Self {
        UserResponse {
            id: user.id,
            name: user.name,
            email: user.email,
            created_at: user.created_at,
            updated_at: user.updated_at,
        }
    }
}

/// What the authentication flows hand back: a signed session token and the
/// profile of the signed-in user.
#[derive(Debug)]
pub struct AuthResponse {
    pub token: String,
    pub user: UserResponse,
}

/// Some user row carries this email.
pub open spec fn email_taken(s: Seq<User>, email: Seq<char>) -> bool {
    exists|i: int| 0 <= i < s.len() && s[i].email@ == email
}

/// No two user rows share an identifier.
pub open spec fn user_ids_unique(s: Seq<User>) -> bool {
    forall|i: int, j: int| 0 <= i < j < s.len() ==> s[i].id@ != s[j].id@
}

/// No two user rows share an email.
pub open spec fn user_emails_unique(s: Seq<User>) -> bool {
    forall|i: int, j: int| 0 <= i < j < s.len() ==> s[i].email@ != s[j].email@
}

/// The users table: rows with pairwise distinct identifiers and emails.
pub struct UserStore {
    pub rows: Vec<User>,
}

impl UserStore {
    /// Well-formed: identifiers and emails are both unique.
    pub open spec fn wf(&self) -> bool {
        user_ids_unique(self.rows@) && user_emails_unique(self.rows@)
    }

    /// An empty table.
    pub fn new() -> (r: Self)
        ensures
            r.wf(),
            r.rows@.len() == 0,
    {
        UserStore { rows: Vec::new() }
    }

    /// Finds the user carrying this email.
    pub fn find_by_email(&self, email: &str) -> (r: Option<usize>)
        ensures
            match r {
                Some(i) => i < self.rows@.len() && self.rows@[i as int].email@ == email@,
                None => !email_taken(self.rows@, email@),
            },
    {
        let mut i: usize = 0;
        while i < self.rows.len()
            invariant
                i <= self.rows@.len(),
                forall|j: int| 0 <= j < i ==> !(#[trigger] self.rows@[j].email@ == email@),
            decreases self.rows@.len() - i,
        {
            if str_eq(self.rows[i].email.as_str(), email) {
                return Some(i);
            }
            i += 1;
        }
        None
    }

    /// Whether some user row carries this identifier.
    pub fn has_user_id(&self, id: &str) -> (r: bool)
        ensures
            r == exists|i: int| 0 <= i < self.rows@.len() && #[trigger] self.rows@[i].id@ == id@,
    {
        let mut i: usize = 0;
        while i < self.rows.len()
            invariant
                i <= self.rows@.len(),
                forall|j: int| 0 <= j < i ==> !(#[trigger] self.rows@[j].id@ == id@),
            decreases self.rows@.len() - i,
        {
            if str_eq(self.rows[i].id.as_str(), id) {
                return true;
            }
            i += 1;
        }
        false
    }
}

} // verus!
