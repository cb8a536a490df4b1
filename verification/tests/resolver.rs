use std::cell::Cell;

use io_bluetooth::{each_addr, BtAddr, BtError};

#[test]
fn empty_addresses_rejected_without_attempting() {
    let calls = Cell::new(0u32);
    let addrs: Vec<BtAddr> = Vec::new();
    let r = each_addr(&addrs, |_a: BtAddr| -> Result<u32, BtError> {
        calls.set(calls.get() + 1);
        Ok(1)
    });
    assert_eq!(r, Err(BtError::NotFound));
    assert_eq!(calls.get(), 0);
}

#[test]
fn first_failure_then_success_returns_success() {
    let a = BtAddr::from_raw_bytes([1, 0, 0, 0, 0, 0]);
    let b = BtAddr::from_raw_bytes([2, 0, 0, 0, 0, 0]);
    let calls = Cell::new(0u32);
    let r = each_addr(&vec![a, b], |x: BtAddr| -> Result<u8, BtError> {
        calls.set(calls.get() + 1);
        if x.to_raw_bytes()[0] == 1 {
            Err(BtError::Os(111))
        } else {
            Ok(42)
        }
    });
    assert_eq!(r, Ok(42));
    assert_eq!(calls.get(), 2);
}

#[test]
fn all_failures_return_last_error() {
    let a = BtAddr::from_raw_bytes([1, 0, 0, 0, 0, 0]);
    let b = BtAddr::from_raw_bytes([2, 0, 0, 0, 0, 0]);
    let r = each_addr(&vec![a, b], |x: BtAddr| -> Result<u8, BtError> {
        if x.to_raw_bytes()[0] == 1 {
            Err(BtError::Os(111))
        } else {
            Err(BtError::Os(110))
        }
    });
    assert_eq!(r, Err(BtError::Os(110)));
}

#[test]
fn first_success_stops_iteration() {
    let a = BtAddr::from_raw_bytes([1, 0, 0, 0, 0, 0]);
    let b = BtAddr::from_raw_bytes([2, 0, 0, 0, 0, 0]);
    let calls = Cell::new(0u32);
    let r = each_addr(&vec![a, b], |_x: BtAddr| -> Result<u8, BtError> {
        calls.set(calls.get() + 1);
        Ok(7)
    });
    assert_eq!(r, Ok(7));
    assert_eq!(calls.get(), 1);
}
