use vstd::prelude::*;

verus! {

/// Whether a password matches a bcrypt hash: what `bcrypt::verify` returns
/// for the pair. A deterministic function of the two strings alone.
pub uninterp spec fn bcrypt_matches(password: Seq<char>, hash: Seq<char>) -> bool;

/// Whether `bcrypt::verify` answers for this hash string at all: it fails
/// exactly when the hash is not a well-formed bcrypt string (wrong length,
/// prefix, cost or base64), a deterministic function of the hash alone.
pub uninterp spec fn bcrypt_hash_wellformed(hash: Seq<char>) -> bool;

/// The shape every bcrypt hash string has: exactly 60 characters, starting
/// with a `$`. No plaintext of another shape can be mistaken for one.
pub open spec fn bcrypt_hash_shape(hash: Seq<char>) -> bool {
    hash.len() == 60 && hash[0] == '$'
}

/// The work factor every stored password hash is produced with.
pub const HASH_COST: u32 = 12;

/// Relies on `bcrypt::hash`: a salted, slow one-way hash of the password at
/// the given cost, rendered as the 60-character `$`-prefixed bcrypt string,
/// which `bcrypt::verify` accepts and matches against the same password.
/// The salt is drawn at random, so nothing else is assumed of the result.
#[verifier::external_body]
pub fn hash_password(password: &str, cost: u32) -> (r: Option<String>)
    ensures
        r matches Some(h) ==> bcrypt_matches(password@, h@) && bcrypt_hash_wellformed(h@)
            && bcrypt_hash_shape(h@),
{
    bcrypt::hash(password, cost).ok()
}

/// Relies on `bcrypt::verify`: whether the password matches the hash.
/// `None` exactly when the hash is not a well-formed bcrypt string.
#[verifier::external_body]
pub fn check_password(password: &str, hash: &str) -> (r: Option<bool>)
    ensures
        (r is Some) == bcrypt_hash_wellformed(hash@),
        r matches Some(b) ==> b == bcrypt_matches(password@, hash@),
{
    bcrypt::verify(password, hash).ok()
}

} // verus!
