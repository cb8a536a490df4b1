//! The multi-address resolver.
//!
//! Bind and connect accept an ordered sequence of candidate addresses. The
//! resolver tries the per-address operation on each candidate in turn and
//! stops at the first success; when every attempt fails, only the error of
//! the last attempt is reported. An empty candidate sequence is rejected up
//! front without attempting anything. The last-error-wins policy is
//! deliberate and kept for compatibility.

use vstd::prelude::*;

use crate::addr::BtAddr;
use crate::error::BtError;

verus! {

/// The error returned when the candidate address sequence is empty.
pub open spec fn no_addresses_error() -> BtError {
    BtError::NotFound
}

/// True when failing on `a` is a possible outcome of the operation `f`.
pub open spec fn may_fail_on<T, F: Fn(BtAddr) -> Result<T, BtError>>(f: F, a: BtAddr) -> bool {
    exists|e: BtError| call_ensures(f, (a,), Result::<T, BtError>::Err(e))
}

/// Applies `f` to each address in order, returning the first success; if all
/// attempts fail, returns the error of the last attempt. An empty `addrs`
/// yields `no_addresses_error()` and `f` is never attempted.
pub fn each_addr<T, F: Fn(BtAddr) -> Result<T, BtError>>(addrs: &Vec<BtAddr>, f: F) -> (r: Result<
    T,
    BtError,
>)
    requires
        forall|i: int| 0 <= i < addrs@.len() ==> call_requires(f, (addrs@[i],)),
    ensures
        addrs@.len() == 0 ==> r == Result::<T, BtError>::Err(no_addresses_error()),
        r matches Ok(v) ==> exists|i: int|
            0 <= i < addrs@.len() && #[trigger] call_ensures(f, (addrs@[i],), Ok(v)) && (forall|
                j: int,
            | 0 <= j < i ==> #[trigger] may_fail_on(f, addrs@[j])),
        r matches Err(e) ==> addrs@.len() > 0 ==> call_ensures(
            f,
            (addrs@.last(),),
            Result::<T, BtError>::Err(e),
        ) && (forall|j: int| 0 <= j < addrs@.len() ==> #[trigger] may_fail_on(f, addrs@[j])),
{
    let n: usize = addrs.len();
    let mut k: usize = 0;
    let mut last_err: Option<BtError> = None;
    while k < n
        invariant
            n == addrs@.len(),
            0 <= k <= n,
            forall|i: int| 0 <= i < addrs@.len() ==> call_requires(f, (addrs@[i],)),
            forall|j: int| 0 <= j < k ==> #[trigger] may_fail_on(f, addrs@[j]),
            k > 0 ==> (last_err matches Some(e) && call_ensures(
                f,
                (addrs@[k - 1],),
                Result::<T, BtError>::Err(e),
            )),
            k == 0 ==> last_err is None,
        decreases n - k,
    {
        match f(addrs[k]) {
            Ok(v) => {
                return Ok(v);
            },
            Err(e) => {
                last_err = Some(e);
            },
        }
        k += 1;
    }
    match last_err {
        Some(e) => Err(e),
        None => Err(BtError::NotFound),
    }
}

} // verus!
