//! The debug operations of the API: one query and one mutation.

use crate::errors::AppError;
use crate::errors::AppErrorView;
use crate::field_error::outward;
use crate::field_error::FieldError;
use crate::field_error::FieldErrorWithCode;
use vstd::prelude::*;
use vstd::string::StringExecFns;

verus! {

/// The input of the debug mutation.
#[derive(Debug)]
pub struct DebugInput {
    pub token: String,
}

/// The result of the debug mutation.
#[derive(Clone, Copy, Debug, PartialEq, Eq, Structural)]
pub struct DebugPayload {
    pub is_ok: bool,
}

/// The debug query.
#[derive(Default)]
pub struct DebugQuery;

impl DebugQuery {
    /// Answers `true`, always.
    pub fn debug(&self) -> (res: Result<bool, FieldError>)
        ensures
            res == Ok::<bool, FieldError>(true),
    {
        Ok(true)
    }
}

/// The debug mutation.
#[derive(Default)]
pub struct DebugMutation;

impl DebugMutation {
    /// Accepts any token but the empty one, which is a bad request.
    pub fn debug(&self, input: DebugInput) -> (res: Result<DebugPayload, FieldError>)
        ensures
            input.token@.len() == 0 ==> res is Err && res->Err_0@ == outward(
                AppErrorView::BadRequest("token empty"@),
            ),
            input.token@.len() > 0 ==> res == Ok::<DebugPayload, FieldError>(
                DebugPayload { is_ok: true },
            ),
    {
        if input.token.as_str().is_empty() {
            let err = AppError::BadRequest(String::from_str("token empty"));
            return Err(FieldError::from(FieldErrorWithCode::from(err)));
        }
        Ok(DebugPayload { is_ok: true })
    }
}

} // verus!
