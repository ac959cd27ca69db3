use vstd::prelude::*;

verus! {

/// Relies on `uuid::Uuid::new_v4` and its `Display` form: a freshly drawn
/// random identifier, rendered in the hyphenated textual form, which is 36
/// characters long. Nothing more is assumed of it — in particular not that
/// two calls return different strings; every caller checks the identifier
/// against its table before using it. The draw aborts only if the operating
/// system's randomness source fails, an environment fault on a par with
/// running out of memory.
#[verifier::external_body]
pub fn fresh_id() -> (r: String)
    ensures
        r@.len() == 36,
{
    uuid::Uuid::new_v4().to_string()
}

} // verus!
