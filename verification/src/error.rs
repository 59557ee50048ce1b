use vstd::prelude::*;

verus! {

/// The error taxonomy of the library.
///
/// `NotFound` and the two payload-carrying variants hold a human-readable
/// message naming the missing key, the offending value, or the internal
/// failure.  Transport adapters map the kinds deterministically, so no
/// function of this crate ever wraps one error in another.
#[derive(Debug, Clone)]
pub enum AppError {
    /// A record with the requested identifier or email does not exist.
    NotFound(String),
    /// Malformed input or a rule violation, such as a no-op edit or an
    /// unknown enumeration token.
    InvalidData(String),
    /// A mutation was attempted on a user whose state is not `Active`.
    NotActive,
    /// The initiator lacks the active-admin authorization.
    NotAllowed,
    /// A storage failure, or a violated reconstruction invariant.
    Internal(String),
}

pub type AppResult<T> = Result<T, AppError>;

impl AppError {
    /// A short stable name for the error kind, usable where the error
    /// must be rendered.
    pub fn kind_name(&self) -> (r: String)
        ensures
            r@ == match self {
                AppError::NotFound(_) => "not found"@,
                AppError::InvalidData(_) => "invalid data"@,
                AppError::NotActive => "not active"@,
                AppError::NotAllowed => "not allowed"@,
                AppError::Internal(_) => "internal"@,
            },
    {
        match self {
            AppError::NotFound(_) => "not found".to_owned(),
            AppError::InvalidData(_) => "invalid data".to_owned(),
            AppError::NotActive => "not active".to_owned(),
            AppError::NotAllowed => "not allowed".to_owned(),
            AppError::Internal(_) => "internal".to_owned(),
        }
    }
}

} // verus!
