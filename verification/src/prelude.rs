//! What every native call shares: the translation of its status.
use crate::jvm::errors::JvmTIError;
use crate::sys;
use vstd::prelude::*;

verus! {

/// The outcome of a native call that yields nothing but its status.
pub type JvmTINaiveCallResult = Result<(), JvmTIError>;

/// Whether `code` is a status that the translation knows: success, or the
/// number of an error.
pub open spec fn is_status(code: u32) -> bool {
    code == sys::JVMTI_ERROR_NONE || JvmTIError::is_error_code(code)
}

/// Whether `code` is a status that the translation knows.
pub fn is_known_status(code: u32) -> (known: bool)
    ensures
        known == is_status(code),
{
    code == sys::JVMTI_ERROR_NONE || JvmTIError::from_error_code(code).is_some()
}

/// Translates the status of a native call: success for `JVMTI_ERROR_NONE`,
/// and for any other status the error with that number.
pub fn native_call_result(err_code: u32) -> (result: JvmTINaiveCallResult)
    requires
        is_status(err_code),
    ensures
        err_code == sys::JVMTI_ERROR_NONE ==> result is Ok,
        err_code != sys::JVMTI_ERROR_NONE ==> result is Err && result->Err_0.code() == err_code,
{
    match err_code {
        sys::JVMTI_ERROR_NONE => Ok(()),
        code => Err(JvmTIError::from_error_code_unchecked(code)),
    }
}

} // verus!
