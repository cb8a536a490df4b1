//! Encoding and decoding of socket timeout options.
//!
//! Both platform families store a read or write timeout inside the socket,
//! with "no timeout configured" encoded as zero. A requested zero duration
//! is therefore ambiguous and must be rejected, not silently coerced; and a
//! nonzero duration that would round down to the zero encoding is bumped to
//! the smallest representable value instead. The POSIX family stores a
//! `timeval` (seconds plus microseconds), the Windows family a count of
//! milliseconds.

use vstd::prelude::*;

use crate::duration::BtDuration;
use crate::error::BtError;

verus! {

/// A plain rendering of the native `timeval` option payload: seconds and
/// microseconds.
#[derive(Clone, Copy, Debug, PartialEq, Eq, Structural)]
pub struct Timeval {
    pub sec: i64,
    pub usec: i64,
}

/// The `timeval` that encodes a nonzero duration: seconds saturated to the
/// native range, nanoseconds truncated to microseconds, and a duration below
/// one microsecond bumped to one microsecond so it does not collide with the
/// "no timeout" encoding.
pub open spec fn timeval_of_duration(d: BtDuration) -> Timeval {
    let sec = if d.secs > i64::MAX { i64::MAX as int } else { d.secs as int };
    let usec = d.nanos / 1000;
    if sec == 0 && usec == 0 {
        Timeval { sec: 0, usec: 1 }
    } else {
        Timeval { sec: sec as i64, usec: usec as i64 }
    }
}

/// Encodes an optional timeout as a `timeval` option payload.
///
/// `None` means "no timeout" and encodes as zero; a zero duration is
/// rejected with `InvalidInput`; any other duration encodes as
/// `timeval_of_duration`.
pub fn encode_timeval(dur: Option<BtDuration>) -> (r: Result<Timeval, BtError>)
    requires
        dur matches Some(d) ==> d.wf(),
    ensures
        match dur {
            Option::None => r == Result::<Timeval, BtError>::Ok(Timeval { sec: 0, usec: 0 }),
            Option::Some(d) => if d.as_nanos_spec() == 0 {
                r == Result::<Timeval, BtError>::Err(BtError::InvalidInput)
            } else {
                r == Result::<Timeval, BtError>::Ok(timeval_of_duration(d))
            },
        },
{
    match dur {
        Some(d) => {
            if d.is_zero() {
                return Err(BtError::InvalidInput);
            }
            let sec: i64 = if d.secs > i64::MAX as u64 {
                i64::MAX
            } else {
                d.secs as i64
            };
            let usec: i64 = (d.nanos / 1000) as i64;
            if sec == 0 && usec == 0 {
                Ok(Timeval { sec: 0, usec: 1 })
            } else {
                Ok(Timeval { sec, usec })
            }
        },
        None => Ok(Timeval { sec: 0, usec: 0 }),
    }
}

/// Decodes a `timeval` option payload read back from a socket. Zero means
/// that no timeout is configured.
pub fn decode_timeval(tv: Timeval) -> (r: Option<BtDuration>)
    requires
        0 <= tv.sec,
        0 <= tv.usec < 1_000_000,
    ensures
        tv.sec == 0 && tv.usec == 0 ==> r is None,
        !(tv.sec == 0 && tv.usec == 0) ==> r == Option::Some(
            BtDuration { secs: tv.sec as u64, nanos: (tv.usec * 1000) as u32 },
        ),
        r matches Some(d) ==> d.wf(),
{
    if tv.sec == 0 && tv.usec == 0 {
        None
    } else {
        Some(BtDuration { secs: tv.sec as u64, nanos: (tv.usec as u32) * 1000 })
    }
}

/// The whole-millisecond encoding of a nonzero duration: milliseconds
/// rounded up, saturated to the all-ones value that the native interface
/// treats as "infinite".
pub open spec fn millis_of_duration(d: BtDuration) -> u32 {
    let ms = d.secs * 1000 + d.nanos / 1_000_000 + if d.nanos % 1_000_000 > 0 {
        1int
    } else {
        0int
    };
    if ms > 0xFFFF_FFFF {
        0xFFFF_FFFFu32
    } else {
        ms as u32
    }
}

/// Encodes an optional timeout as the native millisecond count.
///
/// `None` means "no timeout" and encodes as zero; a zero duration is
/// rejected with `InvalidInput`; any other duration encodes as
/// `millis_of_duration`, which rounds a sub-millisecond remainder up and so
/// never collides with the "no timeout" encoding.
pub fn encode_timeout_ms(dur: Option<BtDuration>) -> (r: Result<u32, BtError>)
    requires
        dur matches Some(d) ==> d.wf(),
    ensures
        match dur {
            Option::None => r == Result::<u32, BtError>::Ok(0u32),
            Option::Some(d) => if d.as_nanos_spec() == 0 {
                r == Result::<u32, BtError>::Err(BtError::InvalidInput)
            } else {
                r == Result::<u32, BtError>::Ok(millis_of_duration(d))
            },
        },
{
    match dur {
        Some(d) => {
            if d.is_zero() {
                return Err(BtError::InvalidInput);
            }
            let sub: u64 = (d.nanos / 1_000_000) as u64 + if d.nanos % 1_000_000 > 0 {
                1u64
            } else {
                0u64
            };
            let ms: u64 = match d.secs.checked_mul(1000) {
                Some(m) => match m.checked_add(sub) {
                    Some(t) => t,
                    None => u64::MAX,
                },
                None => u64::MAX,
            };
            proof {
                assert(d.secs * 1000 + sub > 0xFFFF_FFFF ==> d.secs * 1000 + d.nanos / 1_000_000
                    + if d.nanos % 1_000_000 > 0 {
                    1int
                } else {
                    0int
                } > 0xFFFF_FFFF);
            }
            if ms > 0xFFFF_FFFF {
                Ok(0xFFFF_FFFF)
            } else {
                Ok(ms as u32)
            }
        },
        None => Ok(0),
    }
}

/// Decodes a native millisecond count read back from a socket. Zero means
/// that no timeout is configured.
pub fn decode_timeout_ms(raw: u32) -> (r: Option<BtDuration>)
    ensures
        raw == 0 ==> r is None,
        raw != 0 ==> r == Option::Some(
            BtDuration { secs: (raw / 1000) as u64, nanos: ((raw % 1000) * 1_000_000) as u32 },
        ),
        r matches Some(d) ==> d.wf(),
{
    if raw == 0 {
        None
    } else {
        Some(BtDuration { secs: (raw / 1000) as u64, nanos: (raw % 1000) * 1_000_000 })
    }
}

} // verus!
