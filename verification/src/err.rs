//! The combined error type of the native multimedia library.

use vstd::prelude::*;

use crate::err_av::{is_av_code, spec_av_code, AvInternalError};
use crate::err_ffi::{is_ffi_code, spec_ffi_code, AvFfiError};

verus! {

/// An error returned by a call into the native multimedia library:
/// either an operating-system error, one of the library's own
/// conditions, or an unrecognized code.
#[derive(Clone, Copy, Debug, PartialEq, Eq, Structural)]
pub enum AVError {
    Internal(AvInternalError),
    System(AvFfiError),
    Unknown(i32),
}

/// `r` is the decoding of the native code `v`: operating-system errors
/// take precedence, then the library's own codes, and an unrecognized
/// code is kept as `Unknown`.
pub open spec fn decodes_to(v: int, r: AVError) -> bool {
    &&& (r matches AVError::System(e) ==> spec_ffi_code(e) == v)
    &&& (r matches AVError::Internal(e) ==> (spec_av_code(e) == v && !is_ffi_code(v)))
    &&& (r matches AVError::Unknown(c) ==> (c as int == v && !is_ffi_code(v) && !is_av_code(v)))
    &&& (is_ffi_code(v) ==> r is System)
    &&& (is_av_code(v) ==> (r is System || r is Internal))
}

impl AVError {
    /// Decodes a native integer error code into its tagged form.
    pub fn from_code(value: i32) -> (r: AVError)
        ensures
            decodes_to(value as int, r),
    {
        match AvFfiError::from_i32(value) {
            Some(e) => AVError::System(e),
            None => match AvInternalError::from_i32(value) {
                Some(e) => AVError::Internal(e),
                None => AVError::Unknown(value),
            },
        }
    }

    /// Turns a native return value into a result: zero is success, any
    /// other value carries the negated error code.
    pub fn from_errno(errno: i32) -> (r: Result<(), AVError>)
        requires
            errno > i32::MIN,
        ensures
            (errno == 0) <==> r is Ok,
            errno != 0 ==> (r matches Err(e) && decodes_to(-(errno as int), e)),
    {
        match errno {
            0 => Ok(()),
            errno => Err(AVError::from_code(-errno)),
        }
    }
}

} // verus!
