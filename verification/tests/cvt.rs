use io_bluetooth::cvt::{cvt, cvt_r, recv_result, take_error_result};
use io_bluetooth::BtError;

#[test]
fn minus_one_becomes_the_os_error() {
    assert_eq!(cvt(-1i32, 99), Err(BtError::Os(99)));
    assert_eq!(cvt(-1i64, 13), Err(BtError::Os(13)));
    assert_eq!(cvt(-1isize, 4), Err(BtError::Os(4)));
}

#[test]
fn other_values_pass_through() {
    assert_eq!(cvt(0i32, 99), Ok(0));
    assert_eq!(cvt(5i32, 99), Ok(5));
    assert_eq!(cvt(i64::MAX, 99), Ok(i64::MAX));
}

#[test]
fn cvt_r_classifies_the_call_result() {
    assert_eq!(cvt_r(|| -1i32, 7), Err(BtError::Os(7)));
    assert_eq!(cvt_r(|| 42i32, 7), Ok(42));
}

#[test]
fn recv_shutdown_code_maps_to_eof() {
    assert_eq!(recv_result(-1, 10058, 10058), Ok(0));
    assert_eq!(recv_result(-1, 104, 10058), Err(BtError::Os(104)));
    assert_eq!(recv_result(17, 0, 10058), Ok(17));
}

#[test]
fn pending_error_slot_decodes() {
    assert_eq!(take_error_result(0), None);
    assert_eq!(take_error_result(111), Some(BtError::Os(111)));
}
