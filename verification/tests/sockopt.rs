use io_bluetooth::sockopt::{
    decode_timeout_ms, decode_timeval, encode_timeout_ms, encode_timeval,
};
use io_bluetooth::{BtDuration, BtError, Timeval};

#[test]
fn timeval_none_encodes_as_zero() {
    assert_eq!(encode_timeval(None), Ok(Timeval { sec: 0, usec: 0 }));
}

#[test]
fn timeval_zero_duration_rejected() {
    assert_eq!(
        encode_timeval(Some(BtDuration::new(0, 0))),
        Err(BtError::InvalidInput)
    );
}

#[test]
fn timeval_encodes_seconds_and_microseconds() {
    assert_eq!(
        encode_timeval(Some(BtDuration::new(1, 500_000))),
        Ok(Timeval { sec: 1, usec: 500 })
    );
}

#[test]
fn timeval_sub_microsecond_duration_bumped_to_one_microsecond() {
    assert_eq!(
        encode_timeval(Some(BtDuration::new(0, 999))),
        Ok(Timeval { sec: 0, usec: 1 })
    );
}

#[test]
fn timeval_saturates_oversized_seconds() {
    assert_eq!(
        encode_timeval(Some(BtDuration::new(u64::MAX, 0))),
        Ok(Timeval { sec: i64::MAX, usec: 0 })
    );
}

#[test]
fn timeval_zero_decodes_as_no_timeout() {
    assert_eq!(decode_timeval(Timeval { sec: 0, usec: 0 }), None);
}

#[test]
fn timeval_decodes_to_duration() {
    assert_eq!(
        decode_timeval(Timeval { sec: 2, usec: 500 }),
        Some(BtDuration::new(2, 500_000))
    );
}

#[test]
fn millis_none_encodes_as_zero() {
    assert_eq!(encode_timeout_ms(None), Ok(0));
}

#[test]
fn millis_zero_duration_rejected() {
    assert_eq!(
        encode_timeout_ms(Some(BtDuration::new(0, 0))),
        Err(BtError::InvalidInput)
    );
}

#[test]
fn millis_rounds_a_partial_millisecond_up() {
    assert_eq!(
        encode_timeout_ms(Some(BtDuration::new(0, 1_500_000))),
        Ok(2)
    );
    assert_eq!(encode_timeout_ms(Some(BtDuration::new(0, 1))), Ok(1));
}

#[test]
fn millis_encodes_exact_milliseconds() {
    assert_eq!(
        encode_timeout_ms(Some(BtDuration::new(1, 200_000_000))),
        Ok(1200)
    );
}

#[test]
fn millis_saturates_to_all_ones() {
    assert_eq!(
        encode_timeout_ms(Some(BtDuration::new(u64::MAX, 0))),
        Ok(0xffff_ffff)
    );
}

#[test]
fn millis_zero_decodes_as_no_timeout() {
    assert_eq!(decode_timeout_ms(0), None);
}

#[test]
fn millis_decode_splits_seconds_and_remainder() {
    assert_eq!(decode_timeout_ms(1500), Some(BtDuration::new(1, 500_000_000)));
}
