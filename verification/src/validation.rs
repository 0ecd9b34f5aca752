//! Request bodies that have been parsed and validated.

use crate::error::{AppError, FieldErrors};
use vstd::prelude::*;

verus! {

/// A request body that parsed and violated no rule.
#[derive(Debug, Clone, PartialEq, Eq)]
pub struct ValidatedJson<T>(pub T);

impl<T> ValidatedJson<T> {
    /// Decides on a request body from what parsing and validation gave.
    ///
    /// A body that did not parse is a bad request with the parser's text.
    /// A body that parsed and violates rules is a validation error that
    /// carries every violated field, not the first alone. Only a body
    /// without violations is handed on.
    pub fn from_request(parsed: Result<T, String>, violations: FieldErrors) -> (accepted: Result<
        ValidatedJson<T>,
        AppError,
    >)
        ensures
            match parsed {
                Err(text) => accepted == Err::<ValidatedJson<T>, AppError>(AppError::BadRequest(text)),
                Ok(value) => if violations@.len() == 0 {
                    accepted == Ok::<ValidatedJson<T>, AppError>(ValidatedJson(value))
                } else {
                    accepted == Err::<ValidatedJson<T>, AppError>(AppError::ValidationError(violations))
                },
            },
    {
        match parsed {
            Err(text) => Err(AppError::BadRequest(text)),
            Ok(value) => {
                if violations.is_empty() {
                    Ok(ValidatedJson(value))
                } else {
                    Err(AppError::ValidationError(violations))
                }
            },
        }
    }
}

} // verus!
