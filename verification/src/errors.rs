use vstd::prelude::*;

verus! {

/// The error taxonomy of the whole service.
///
/// `Unauthorized` covers every credential failure (missing, malformed,
/// expired or forged token, unknown email, wrong password); `NotFound`
/// deliberately conflates a missing row with a row owned by another
/// principal; `Conflict` is a duplicate identifier or email; `BadRequest` a
/// missing required field; `Internal` an unclassified failure of an outside
/// facility.
#[derive(Clone, Copy, Debug, PartialEq, Eq, Structural)]
pub enum ApiError {
    Unauthorized,
    NotFound,
    Conflict,
    BadRequest,
    Internal,
}

impl ApiError {
    /// The HTTP status code a handler maps this error to.
    pub fn status_code(&self) -> (code: u16)
        ensures
            code == match *self {
                ApiError::Unauthorized => 401u16,
                ApiError::NotFound => 404u16,
                ApiError::Conflict => 409u16,
                ApiError::BadRequest => 400u16,
                ApiError::Internal => 500u16,
            },
    {
        match self {
            ApiError::Unauthorized => 401,
            ApiError::NotFound => 404,
            ApiError::Conflict => 409,
            ApiError::BadRequest => 400,
            ApiError::Internal => 500,
        }
    }
}

} // verus!
