use vstd::prelude::*;
use vstd::string::StringExecFns;

use crate::credentials::{
    bcrypt_hash_shape, bcrypt_hash_wellformed, bcrypt_matches, check_password, hash_password,
    HASH_COST,
};
use crate::errors::ApiError;
use crate::ids::fresh_id;
use crate::text::{normal_email, normalize_email};
use crate::token::{create_jwt, jwt_claims_of, TOKEN_TTL_SECS};
use crate::user::{
    email_taken, AuthResponse, CreateUserRequest, LoginRequest, User, UserResponse, UserStore,
};

verus! {

/// The combined signin request: it logs in when the email is known and
/// registers otherwise; the name is required only on the registration
/// branch.
pub struct SigninRequest {
    pub name: Option<String>,
    pub email: String,
    pub password: String,
}

impl SigninRequest {
    /// Turns the request into a strict signup request; a missing name
    /// defaults to "User".
    pub fn to_create_user_request(self) -> (r: CreateUserRequest)
        ensures
            r.name@ == match self.name {
                Some(n) => n@,
                None => "User"@,
            },
            r.email@ == self.email@,
            r.password@ == self.password@,
    {
        CreateUserRequest {
            name: match self.name {
                Some(n) => n,
                None => String::from_str("User"),
            },
            email: self.email,
            password: self.password,
        }
    }

    /// Drops the name, keeping the strict login fields.
    pub fn to_login_request(self) -> (r: LoginRequest)
        ensures
            r.email@ == self.email@,
            r.password@ == self.password@,
    {
        LoginRequest { email: self.email, password: self.password }
    }
}

/// Issues the token and profile envelope for a signed-in user. Never
/// fails: token issuance is total.
fn auth_response_for(user: &User, now: i64, secret: &str) -> (r: Result<AuthResponse, ApiError>)
    requires
        0 <= now,
        now + TOKEN_TTL_SECS <= i64::MAX,
    ensures
        r is Ok,
        r matches Ok(resp) ==> {
            &&& jwt_claims_of(resp.token@, secret@) == Some(
                (user.id@, now as int, (now + TOKEN_TTL_SECS) as int),
            )
            &&& resp.user.id@ == user.id@
            &&& resp.user.name@ == user.name@
            &&& resp.user.email@ == user.email@
            &&& resp.user.created_at == user.created_at
            &&& resp.user.updated_at == user.updated_at
        },
        r matches Err(e) ==> e == ApiError::Internal,
{
    match create_jwt(user.id.as_str(), now, secret) {
        Ok(token) => Ok(AuthResponse { token, user: UserResponse::from(user.duplicate()) }),
        Err(_) => Err(ApiError::Internal),
    }
}

impl UserStore {
    /// Strict signup: rejects a known email with `Conflict`, otherwise
    /// hashes the password, stores the new user stamped with `now`, and
    /// hands back the profile with a fresh 24-hour token. Emails are
    /// compared and stored verbatim, case-sensitively; only the combined
    /// signin flow normalizes them.
    pub fn signup(&mut self, payload: CreateUserRequest, now: i64, secret: &str) -> (r: Result<
        AuthResponse,
        ApiError,
    >)
        requires
            old(self).wf(),
            0 <= now,
            now + TOKEN_TTL_SECS <= i64::MAX,
        ensures
            final(self).wf(),
            match r {
                Ok(resp) => {
                    &&& !email_taken(old(self).rows@, payload.email@)
                    &&& exists|u: User|
                        #![auto]
                        {
                            &&& final(self).rows@ == old(self).rows@.push(u)
                            &&& u.name@ == payload.name@
                            &&& u.email@ == payload.email@
                            &&& bcrypt_matches(payload.password@, u.password_hash@)
                            &&& bcrypt_hash_wellformed(u.password_hash@)
                            &&& bcrypt_hash_shape(u.password_hash@)
                            &&& u.created_at == now
                            &&& u.updated_at == now
                            &&& resp.user.id@ == u.id@
                            &&& resp.user.name@ == u.name@
                            &&& resp.user.email@ == u.email@
                            &&& resp.user.created_at == now
                            &&& resp.user.updated_at == now
                            &&& jwt_claims_of(resp.token@, secret@) == Some(
                                (u.id@, now as int, (now + TOKEN_TTL_SECS) as int),
                            )
                        }
                },
                Err(ApiError::Conflict) => email_taken(old(self).rows@, payload.email@)
                    && final(self).rows@ == old(self).rows@,
                Err(ApiError::Internal) => !email_taken(old(self).rows@, payload.email@)
                    && final(self).rows@ == old(self).rows@,
                Err(_) => false,
            },
            email_taken(old(self).rows@, payload.email@) ==> r matches Err(ApiError::Conflict),
    {
        if self.find_by_email(payload.email.as_str()).is_some() {
            return Err(ApiError::Conflict);
        }
        let password_hash = match hash_password(payload.password.as_str(), HASH_COST) {
            Some(h) => h,
            None => {
                return Err(ApiError::Internal);
            },
        };
        let id = fresh_id();
        if self.has_user_id(id.as_str()) {
            return Err(ApiError::Internal);
        }
        let user = User {
            id,
            name: payload.name,
            email: payload.email,
            password_hash,
            created_at: now,
            updated_at: now,
        };
        proof {
            lemma_fresh_user_keeps_wf(self.rows@, user);
        }
        let kept = user.duplicate();
        self.rows.push(user);
        match create_jwt(kept.id.as_str(), now, secret) {
            Ok(token) => Ok(AuthResponse { token, user: UserResponse::from(kept) }),
            Err(_) => Err(ApiError::Internal),
        }
    }

    /// Strict login: an unknown email and a wrong password fail the same
    /// way, `Unauthorized`, without revealing which; a matching pair hands
    /// back the profile with a fresh 24-hour token. The table is never
    /// changed. `Internal` can only arise from a stored hash that is not a
    /// bcrypt string at all.
    pub fn login(&self, payload: LoginRequest, now: i64, secret: &str) -> (r: Result<
        AuthResponse,
        ApiError,
    >)
        requires
            self.wf(),
            0 <= now,
            now + TOKEN_TTL_SECS <= i64::MAX,
        ensures
            (exists|i: int|
                #![auto]
                0 <= i < self.rows@.len() && self.rows@[i].email@ == payload.email@
                    && bcrypt_matches(payload.password@, self.rows@[i].password_hash@)
                    && bcrypt_hash_wellformed(self.rows@[i].password_hash@)) ==> r is Ok,
            (exists|i: int|
                #![auto]
                0 <= i < self.rows@.len() && self.rows@[i].email@ == payload.email@
                    && bcrypt_hash_wellformed(self.rows@[i].password_hash@)
                    && !bcrypt_matches(payload.password@, self.rows@[i].password_hash@)) ==> r
                matches Err(ApiError::Unauthorized),
            r matches Ok(resp) ==> exists|i: int|
                #![auto]
                {
                    &&& 0 <= i < self.rows@.len()
                    &&& self.rows@[i].email@ == payload.email@
                    &&& bcrypt_matches(payload.password@, self.rows@[i].password_hash@)
                    &&& resp.user.id@ == self.rows@[i].id@
                    &&& resp.user.name@ == self.rows@[i].name@
                    &&& resp.user.email@ == self.rows@[i].email@
                    &&& resp.user.created_at == self.rows@[i].created_at
                    &&& resp.user.updated_at == self.rows@[i].updated_at
                    &&& jwt_claims_of(resp.token@, secret@) == Some(
                        (self.rows@[i].id@, now as int, (now + TOKEN_TTL_SECS) as int),
                    )
                },
            !email_taken(self.rows@, payload.email@) ==> r matches Err(ApiError::Unauthorized),
            (exists|i: int|
                #![auto]
                0 <= i < self.rows@.len() && self.rows@[i].email@ == payload.email@
                    && !bcrypt_matches(payload.password@, self.rows@[i].password_hash@)) ==> r
                is Err,
            r matches Err(e) ==> (e == ApiError::Unauthorized || e == ApiError::Internal),
            r matches Err(ApiError::Unauthorized) ==> (!email_taken(self.rows@, payload.email@)
                || exists|i: int|
                #![auto]
                0 <= i < self.rows@.len() && self.rows@[i].email@ == payload.email@
                    && !bcrypt_matches(payload.password@, self.rows@[i].password_hash@)),
    {
        let i = match self.find_by_email(payload.email.as_str()) {
            Some(i) => i,
            None => {
                return Err(ApiError::Unauthorized);
            },
        };
        proof {
            lemma_email_names_one_row(self.rows@, i as int);
        }
        let user = &self.rows[i];
        let ok = match check_password(payload.password.as_str(), user.password_hash.as_str()) {
            Some(b) => b,
            None => {
                return Err(ApiError::Internal);
            },
        };
        if !ok {
            return Err(ApiError::Unauthorized);
        }
        auth_response_for(user, now, secret)
    }

    /// The combined signin flow. The email is first normalized (trimmed and
    /// lowercased). A known email behaves as a login and never touches the
    /// table; an unknown one registers a new user under the normalized
    /// email, which requires a name (`BadRequest` otherwise), and hands
    /// back the profile with a fresh 24-hour token.
    pub fn signin(&mut self, payload: SigninRequest, now: i64, secret: &str) -> (r: Result<
        AuthResponse,
        ApiError,
    >)
        requires
            old(self).wf(),
            0 <= now,
            now + TOKEN_TTL_SECS <= i64::MAX,
        ensures
            final(self).wf(),
            email_taken(old(self).rows@, normal_email(payload.email@))
                ==> final(self).rows@ == old(self).rows@,
            (exists|i: int|
                #![auto]
                0 <= i < old(self).rows@.len() && old(self).rows@[i].email@ == normal_email(
                    payload.email@,
                ) && bcrypt_matches(payload.password@, old(self).rows@[i].password_hash@)
                    && bcrypt_hash_wellformed(old(self).rows@[i].password_hash@)) ==> r is Ok,
            (exists|i: int|
                #![auto]
                0 <= i < old(self).rows@.len() && old(self).rows@[i].email@ == normal_email(
                    payload.email@,
                ) && bcrypt_hash_wellformed(old(self).rows@[i].password_hash@)
                    && !bcrypt_matches(payload.password@, old(self).rows@[i].password_hash@))
                ==> r matches Err(ApiError::Unauthorized),
            r matches Ok(resp) ==> (!email_taken(old(self).rows@, normal_email(payload.email@))
                || exists|i: int|
                #![auto]
                {
                    &&& 0 <= i < old(self).rows@.len()
                    &&& old(self).rows@[i].email@ == normal_email(payload.email@)
                    &&& bcrypt_matches(payload.password@, old(self).rows@[i].password_hash@)
                    &&& resp.user.id@ == old(self).rows@[i].id@
                    &&& resp.user.name@ == old(self).rows@[i].name@
                    &&& resp.user.email@ == old(self).rows@[i].email@
                    &&& resp.user.created_at == old(self).rows@[i].created_at
                    &&& resp.user.updated_at == old(self).rows@[i].updated_at
                    &&& jwt_claims_of(resp.token@, secret@) == Some(
                        (old(self).rows@[i].id@, now as int, (now + TOKEN_TTL_SECS) as int),
                    )
                }),
            (!email_taken(old(self).rows@, normal_email(payload.email@)) && payload.name is None)
                ==> (r matches Err(ApiError::BadRequest) && final(self).rows@ == old(self).rows@),
            r matches Ok(resp) ==> (email_taken(old(self).rows@, normal_email(payload.email@))
                || (payload.name matches Some(nm) && exists|u: User|
                #![auto]
                {
                    &&& final(self).rows@ == old(self).rows@.push(u)
                    &&& u.name@ == nm@
                    &&& u.email@ == normal_email(payload.email@)
                    &&& bcrypt_matches(payload.password@, u.password_hash@)
                    &&& bcrypt_hash_wellformed(u.password_hash@)
                    &&& bcrypt_hash_shape(u.password_hash@)
                    &&& u.created_at == now
                    &&& u.updated_at == now
                    &&& resp.user.id@ == u.id@
                    &&& resp.user.name@ == u.name@
                    &&& resp.user.email@ == u.email@
                    &&& jwt_claims_of(resp.token@, secret@) == Some(
                        (u.id@, now as int, (now + TOKEN_TTL_SECS) as int),
                    )
                })),
            (exists|i: int|
                #![auto]
                0 <= i < old(self).rows@.len() && old(self).rows@[i].email@ == normal_email(
                    payload.email@,
                ) && !bcrypt_matches(payload.password@, old(self).rows@[i].password_hash@)) ==> r
                is Err,
            r matches Err(e) ==> (e == ApiError::Unauthorized || e == ApiError::Internal || e
                == ApiError::BadRequest),
            r matches Err(ApiError::BadRequest) ==> (!email_taken(
                old(self).rows@,
                normal_email(payload.email@),
            ) && payload.name is None),
            r matches Err(ApiError::Unauthorized) ==> exists|i: int|
                #![auto]
                0 <= i < old(self).rows@.len() && old(self).rows@[i].email@ == normal_email(
                    payload.email@,
                ) && !bcrypt_matches(payload.password@, old(self).rows@[i].password_hash@),
            (r matches Err(ApiError::Internal) && !email_taken(
                old(self).rows@,
                normal_email(payload.email@),
            )) ==> final(self).rows@ == old(self).rows@,
    {
        let email = normalize_email(payload.email.as_str());
        match self.find_by_email(email.as_str()) {
            Some(i) => {
                proof {
                    lemma_email_names_one_row(self.rows@, i as int);
                }
                let user = &self.rows[i];
                let ok = match check_password(
                    payload.password.as_str(),
                    user.password_hash.as_str(),
                ) {
                    Some(b) => b,
                    None => {
                        return Err(ApiError::Internal);
                    },
                };
                if !ok {
                    return Err(ApiError::Unauthorized);
                }
                auth_response_for(user, now, secret)
            },
            None => {
                let name = match payload.name {
                    Some(n) => n,
                    None => {
                        return Err(ApiError::BadRequest);
                    },
                };
                let password_hash = match hash_password(payload.password.as_str(), HASH_COST) {
                    Some(h) => h,
                    None => {
                        return Err(ApiError::Internal);
                    },
                };
                let id = fresh_id();
                if self.has_user_id(id.as_str()) {
                    return Err(ApiError::Internal);
                }
                let user = User {
                    id,
                    name,
                    email,
                    password_hash,
                    created_at: now,
                    updated_at: now,
                };
                proof {
                    lemma_fresh_user_keeps_wf(self.rows@, user);
                }
                let kept = user.duplicate();
                self.rows.push(user);
                match create_jwt(kept.id.as_str(), now, secret) {
                    Ok(token) => Ok(AuthResponse { token, user: UserResponse::from(kept) }),
                    Err(_) => Err(ApiError::Internal),
                }
            },
        }
    }
}

/// When emails are unique, every row carrying the email of row `i` is row
/// `i` itself.
proof fn lemma_email_names_one_row(s: Seq<User>, i: int)
    requires
        crate::user::user_emails_unique(s),
        0 <= i < s.len(),
    ensures
        forall|k: int|
            0 <= k < s.len() && #[trigger] s[k].email@ == s[i].email@ ==> s[k] == s[i],
{
    assert forall|k: int|
        0 <= k < s.len() && #[trigger] s[k].email@ == s[i].email@ implies s[k] == s[i] by {
        if k < i {
            assert(s[k].email@ != s[i].email@);
        } else if k > i {
            assert(s[i].email@ != s[k].email@);
        }
    }
}

/// Pushing a user with a fresh identifier and a fresh email keeps both
/// uniqueness invariants.
proof fn lemma_fresh_user_keeps_wf(s: Seq<User>, u: User)
    requires
        crate::user::user_ids_unique(s),
        crate::user::user_emails_unique(s),
        !(exists|i: int| 0 <= i < s.len() && #[trigger] s[i].id@ == u.id@),
        !email_taken(s, u.email@),
    ensures
        crate::user::user_ids_unique(s.push(u)),
        crate::user::user_emails_unique(s.push(u)),
{
    let t = s.push(u);
    assert forall|i: int, j: int| 0 <= i < j < t.len() implies t[i].id@ != t[j].id@ by {
        if j < s.len() {
            assert(s[i].id@ != s[j].id@);
        } else {
            assert(t[j] == u);
            assert(!(0 <= i < s.len() && s[i].id@ == u.id@));
        }
    }
    assert forall|i: int, j: int| 0 <= i < j < t.len() implies t[i].email@ != t[j].email@ by {
        if j < s.len() {
            assert(s[i].email@ != s[j].email@);
        } else {
            assert(t[j] == u);
            assert(!(0 <= i < s.len() && s[i].email@ == u.email@));
        }
    }
}

} // verus!
