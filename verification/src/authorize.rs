use vstd::prelude::*;
use vstd::string::StrSliceExecFns;

use crate::errors::ApiError;
use crate::text::str_eq;
use crate::token::{jwt_claims_of, token_accepted, verify_jwt};

verus! {

/// The authenticated principal: the user identifier carried by a verified
/// session token. Every scoped repository operation takes it, and it is the
/// sole source of truth for row ownership — a user identifier found in a
/// request body is never used for scoping.
#[derive(Debug)]
pub struct AuthUser {
    pub user_id: String,
}

/// The token a bearer-scheme authorization header carries: the text after
/// the `"Bearer "` prefix, or nothing when the header is not in that scheme.
pub open spec fn bearer_token(h: Seq<char>) -> Option<Seq<char>> {
    if h.len() >= 7 && h.subrange(0, 7) == "Bearer "@ {
        Some(h.subrange(7, h.len() as int))
    } else {
        None
    }
}

impl AuthUser {
    /// Gates a protected request: reads the bearer credential out of the
    /// authorization header and verifies it.
    ///
    /// A missing header, a header not in the `Bearer <token>` scheme, and a
    /// token that is malformed, forged or expired all fail `Unauthorized`;
    /// a verified token yields the principal named by its subject.
    pub fn from_header(header: Option<&str>, now: i64, secret: &str) -> (r: Result<
        AuthUser,
        ApiError,
    >)
        ensures
            (r is Ok) == (header matches Some(h) && bearer_token(h@) matches Some(t)
                && token_accepted(t, secret@, now)),
            r matches Ok(u) ==> (header matches Some(h) && bearer_token(h@) matches Some(t)
                && jwt_claims_of(t, secret@) matches Some(c) && u.user_id@ == c.0),
            r matches Err(e) ==> e == ApiError::Unauthorized,
    {
        let h = match header {
            Some(h) => h,
            None => {
                return Err(ApiError::Unauthorized);
            },
        };
        let n = h.unicode_len();
        if n < 7 {
            return Err(ApiError::Unauthorized);
        }
        let prefix = h.substring_char(0, 7);
        if !str_eq(prefix, "Bearer ") {
            return Err(ApiError::Unauthorized);
        }
        let token = h.substring_char(7, n);
        match verify_jwt(token, now, secret) {
            Ok(c) => Ok(AuthUser { user_id: c.sub }),
            Err(_) => Err(ApiError::Unauthorized),
        }
    }
}

} // verus!
