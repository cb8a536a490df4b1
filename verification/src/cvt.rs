//! Classification of native call return values.
//!
//! Both socket interfaces report failure by returning -1 and leaving the
//! real error in a side channel. The caller reads that channel and hands
//! the code in, so the classification itself stays a plain function of its
//! arguments.

use vstd::prelude::*;

use crate::error::BtError;

verus! {

/// A native return type whose value -1 signals failure.
pub trait IsMinusOne: Sized {
    /// Whether the value is the failure marker -1.
    spec fn spec_is_minus_one(&self) -> bool;

    /// Tests the value against the failure marker -1.
    fn is_minus_one(&self) -> (r: bool)
        ensures
            r == self.spec_is_minus_one(),
    ;
}

impl IsMinusOne for i8 {
    open spec fn spec_is_minus_one(&self) -> bool {
        *self == -1
    }

    fn is_minus_one(&self) -> (r: bool) {
        *self == -1
    }
}

impl IsMinusOne for i16 {
    open spec fn spec_is_minus_one(&self) -> bool {
        *self == -1
    }

    fn is_minus_one(&self) -> (r: bool) {
        *self == -1
    }
}

impl IsMinusOne for i32 {
    open spec fn spec_is_minus_one(&self) -> bool {
        *self == -1
    }

    fn is_minus_one(&self) -> (r: bool) {
        *self == -1
    }
}

impl IsMinusOne for i64 {
    open spec fn spec_is_minus_one(&self) -> bool {
        *self == -1
    }

    fn is_minus_one(&self) -> (r: bool) {
        *self == -1
    }
}

impl IsMinusOne for isize {
    open spec fn spec_is_minus_one(&self) -> bool {
        *self == -1
    }

    fn is_minus_one(&self) -> (r: bool) {
        *self == -1
    }
}

/// Checks a native return value against the failure marker -1: a failing
/// value is replaced by the native error code read from the side channel,
/// any other value is passed through.
pub fn cvt<T: IsMinusOne>(t: T, os_error: i32) -> (r: Result<T, BtError>)
    ensures
        t.spec_is_minus_one() ==> r == Result::<T, BtError>::Err(BtError::Os(os_error)),
        !t.spec_is_minus_one() ==> r == Result::<T, BtError>::Ok(t),
{
    if t.is_minus_one() {
        Err(BtError::Os(os_error))
    } else {
        Ok(t)
    }
}

/// Classifies the return of a native receive. A failure whose error is the
/// "socket was shut down" code maps to end-of-file — zero bytes — so a shut
/// down socket reads as closed on every platform; any other failure carries
/// the native code; a non-negative return is the byte count.
pub fn recv_result(n: i32, os_error: i32, shutdown_code: i32) -> (r: Result<usize, BtError>)
    requires
        n >= -1,
    ensures
        n == -1 && os_error == shutdown_code ==> r == Result::<usize, BtError>::Ok(0usize),
        n == -1 && os_error != shutdown_code ==> r == Result::<usize, BtError>::Err(
            BtError::Os(os_error),
        ),
        n >= 0 ==> r == Result::<usize, BtError>::Ok(n as usize),
{
    if n == -1 {
        if os_error == shutdown_code {
            Ok(0)
        } else {
            Err(BtError::Os(os_error))
        }
    } else {
        Ok(n as usize)
    }
}

/// Decodes the socket's pending-error slot as read by the error socket
/// option: zero means no pending error, anything else is the native code.
pub fn take_error_result(raw: i32) -> (r: Option<BtError>)
    ensures
        raw == 0 ==> r is None,
        raw != 0 ==> r == Option::Some(BtError::Os(raw)),
{
    if raw == 0 {
        None
    } else {
        Some(BtError::Os(raw))
    }
}

/// Calls `f` once and classifies its return value as `cvt` does.
pub fn cvt_r<T: IsMinusOne, F: Fn() -> T>(f: F, os_error: i32) -> (r: Result<T, BtError>)
    requires
        call_requires(f, ()),
    ensures
        exists|t: T|
            #[trigger] call_ensures(f, (), t) && if t.spec_is_minus_one() {
                r == Result::<T, BtError>::Err(BtError::Os(os_error))
            } else {
                r == Result::<T, BtError>::Ok(t)
            },
{
    cvt(f(), os_error)
}

} // verus!
