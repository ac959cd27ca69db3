use vstd::prelude::*;

use crate::errors::ApiError;

verus! {

/// The claims a session token carries: subject (the user identifier),
/// expiry and issued-at, both UTC epoch seconds. A token encodes exactly
/// these three.
#[derive(Debug)]
pub struct Claims {
    pub sub: String,
    pub exp: i64,
    pub iat: i64,
}

/// How long a session token lives: 24 hours.
pub const TOKEN_TTL_SECS: i64 = 24 * 60 * 60;

/// What `jsonwebtoken::decode` recovers from a token under a secret, with
/// expiry validation switched off: `Some((sub, iat, exp))` exactly when the
/// token is well formed, its HS256 signature verifies under the secret and
/// the three claims are present; `None` otherwise. A deterministic function
/// of token and secret alone.
pub uninterp spec fn jwt_claims_of(token: Seq<char>, secret: Seq<char>) -> Option<
    (Seq<char>, int, int),
>;

/// Relies on `jsonwebtoken::encode` with HS256, which cannot fail for an
/// HMAC secret and plain JSON claims (serialization and HMAC signing are
/// total), and, for the round-trip clause, on `jsonwebtoken::decode`
/// recovering under the same secret exactly the claims that were encoded.
/// Decoding reads the numeric claims as unsigned, so negative instants are
/// kept out by `requires`.
#[verifier::external_body]
fn jwt_encode(sub: &str, iat: i64, exp: i64, secret: &str) -> (r: Option<String>)
    requires
        0 <= iat,
        0 <= exp,
    ensures
        r is Some,
        r matches Some(t) ==> jwt_claims_of(t@, secret@) == Some(
            (sub@, iat as int, exp as int),
        ),
{
    let mut claims = serde_json::Map::new();
    claims.insert("sub".to_string(), serde_json::Value::String(sub.to_string()));
    claims.insert("iat".to_string(), serde_json::Value::from(iat));
    claims.insert("exp".to_string(), serde_json::Value::from(exp));
    let key = jsonwebtoken::EncodingKey::from_secret(secret.as_bytes());
    jsonwebtoken::encode(&jsonwebtoken::Header::default(), &serde_json::Value::Object(claims), &key)
        .ok()
}

/// Relies on `jsonwebtoken::decode` with HS256 and expiry validation
/// switched off: it checks the token's shape and signature and hands back
/// the claims; the expiry rule is enforced by `verify_jwt` below.
#[verifier::external_body]
fn jwt_decode(token: &str, secret: &str) -> (r: Option<Claims>)
    ensures
        (r is Some) == (jwt_claims_of(token@, secret@) is Some),
        r matches Some(c) ==> jwt_claims_of(token@, secret@) == Some(
            (c.sub@, c.iat as int, c.exp as int),
        ),
{
    let mut validation = jsonwebtoken::Validation::new(jsonwebtoken::Algorithm::HS256);
    validation.validate_exp = false;
    let key = jsonwebtoken::DecodingKey::from_secret(secret.as_bytes());
    let data = jsonwebtoken::decode::<serde_json::Value>(token, &key, &validation).ok()?;
    let sub = data.claims.get("sub")?.as_str()?.to_string();
    let iat = data.claims.get("iat")?.as_i64()?;
    let exp = data.claims.get("exp")?.as_i64()?;
    Some(Claims { sub, exp, iat })
}

/// A token is accepted under a secret at an instant exactly when its
/// signature verifies and its expiry lies strictly in the future. There is
/// no partial trust: anything else is categorically invalid.
pub open spec fn token_accepted(token: Seq<char>, secret: Seq<char>, now: i64) -> bool {
    jwt_claims_of(token, secret) matches Some(c) && c.2 > now
}

/// Issues a signed session token for a user: subject is the user
/// identifier, issued-at is `now`, expiry 24 hours later. Issuance never
/// fails.
pub fn create_jwt(user_id: &str, now: i64, secret: &str) -> (r: Result<String, ApiError>)
    requires
        0 <= now,
        now + TOKEN_TTL_SECS <= i64::MAX,
    ensures
        r is Ok,
        r matches Ok(t) ==> jwt_claims_of(t@, secret@) == Some(
            (user_id@, now as int, (now + TOKEN_TTL_SECS) as int),
        ),
{
    match jwt_encode(user_id, now, now + TOKEN_TTL_SECS, secret) {
        Some(t) => Ok(t),
        None => Err(ApiError::Internal),
    }
}

/// Verifies a session token: accepts exactly the tokens whose signature
/// verifies under the secret and whose expiry lies in the future, and hands
/// back their claims. Everything else — malformed, forged, expired — is
/// `Unauthorized`.
pub fn verify_jwt(token: &str, now: i64, secret: &str) -> (r: Result<Claims, ApiError>)
    ensures
        (r is Ok) == token_accepted(token@, secret@, now),
        r matches Ok(c) ==> jwt_claims_of(token@, secret@) == Some(
            (c.sub@, c.iat as int, c.exp as int),
        ) && c.exp > now,
        r matches Err(e) ==> e == ApiError::Unauthorized,
{
    match jwt_decode(token, secret) {
        Some(c) => {
            if c.exp > now {
                Ok(c)
            } else {
                Err(ApiError::Unauthorized)
            }
        },
        None => Err(ApiError::Unauthorized),
    }
}

/// A token whose expiry is not in the future is rejected even when its
/// signature is valid: acceptance demands `exp > now` on top of signature
/// validity.
pub proof fn lemma_expired_token_rejected(token: Seq<char>, secret: Seq<char>, now: i64)
    requires
        jwt_claims_of(token, secret) matches Some(c) && c.2 <= now,
    ensures
        !token_accepted(token, secret, now),
{
}

} // verus!
