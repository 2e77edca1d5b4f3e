//! The binding's single error type: a wrapped native status code.
//!
//! Every fallible operation of the engine reports one status code; the
//! binding wraps it uniformly and does not subdivide further.  The code
//! values mirror the engine's status enumeration.

use vstd::prelude::*;

verus! {

/// The engine's "success" status.
pub const SR_ERR_OK: u32 = 0;
/// Invalid argument (for the binding: a string with an interior NUL byte,
/// which cannot cross the C boundary).
pub const SR_ERR_INVAL_ARG: u32 = 1;
/// An error reported by the schema/data-tree library.
pub const SR_ERR_LY: u32 = 2;
/// A system call failed.
pub const SR_ERR_SYS: u32 = 3;
/// Out of memory.
pub const SR_ERR_NO_MEMORY: u32 = 4;
/// The requested item was not found.
pub const SR_ERR_NOT_FOUND: u32 = 5;
/// The item already exists.
pub const SR_ERR_EXISTS: u32 = 6;
/// Internal error; also raised by the binding's own defensive invariant
/// checks.
pub const SR_ERR_INTERNAL: u32 = 7;
/// Unsupported operation.
pub const SR_ERR_UNSUPPORTED: u32 = 8;
/// Validation of the staged changes failed.
pub const SR_ERR_VALIDATION_FAILED: u32 = 9;
/// An engine operation failed.
pub const SR_ERR_OPERATION_FAILED: u32 = 10;
/// Permission denied.
pub const SR_ERR_UNAUTHORIZED: u32 = 11;
/// The requested resource is locked.
pub const SR_ERR_LOCKED: u32 = 12;
/// The operation timed out.
pub const SR_ERR_TIME_OUT: u32 = 13;
/// A callback returned an error.
pub const SR_ERR_CALLBACK_FAILED: u32 = 14;
/// A callback was shelved for later processing.
pub const SR_ERR_CALLBACK_SHELVE: u32 = 15;

/// An error reported by the engine (or by one of the binding's own
/// defensive checks), carrying the native status code unchanged.
#[derive(Clone, Copy, Debug, PartialEq, Eq, Structural)]
pub struct Error {
    /// The native status code; never [`SR_ERR_OK`].
    pub errcode: u32,
}

impl Error {
    /// Wraps a non-success status code.
    pub fn new(errcode: u32) -> (e: Error)
        requires
            errcode != SR_ERR_OK,
        ensures
            e.errcode == errcode,
    {
        Error { errcode }
    }

    /// The wrapped native status code.
    pub fn errcode(&self) -> (c: u32)
        ensures
            c == self.errcode,
    {
        self.errcode
    }

    /// Whether this error reports that the requested item was not found.
    pub fn is_not_found(&self) -> (r: bool)
        ensures
            r == (self.errcode == SR_ERR_NOT_FOUND),
    {
        self.errcode == SR_ERR_NOT_FOUND
    }
}

/// Turns an engine status code into the binding's result convention:
/// success for [`SR_ERR_OK`], otherwise the wrapped code.
pub fn status_to_result(status: u32) -> (r: Result<(), Error>)
    ensures
        status == SR_ERR_OK ==> r == Ok::<(), Error>(()),
        status != SR_ERR_OK ==> r == Err::<(), Error>(Error { errcode: status }),
{
    if status != SR_ERR_OK {
        Err(Error { errcode: status })
    } else {
        Ok(())
    }
}

/// Turns a callback's result back into the engine's status-code convention:
/// the wrapped code on error, [`SR_ERR_OK`] on success.  This is the
/// translation every callback trampoline performs before handing control
/// back to the engine.
pub fn result_to_status(r: &Result<(), Error>) -> (status: u32)
    ensures
        r is Ok ==> status == SR_ERR_OK,
        r is Err ==> status == r->Err_0.errcode,
{
    match r {
        Ok(()) => SR_ERR_OK,
        Err(e) => e.errcode,
    }
}

} // verus!
