use io_bluetooth::BtDuration;

#[test]
fn from_millis_splits_seconds_and_nanos() {
    let d = BtDuration::from_millis(1500);
    assert_eq!(d.secs, 1);
    assert_eq!(d.nanos, 500_000_000);
}

#[test]
fn is_zero_only_for_the_zero_span() {
    assert!(BtDuration::new(0, 0).is_zero());
    assert!(!BtDuration::new(0, 1).is_zero());
    assert!(!BtDuration::new(1, 0).is_zero());
}

#[test]
fn ge_compares_whole_spans() {
    let a = BtDuration::new(1, 0);
    let b = BtDuration::new(0, 999_999_999);
    assert!(a.ge(&b));
    assert!(!b.ge(&a));
    assert!(a.ge(&a));
}

#[test]
fn sub_borrows_across_the_seconds_boundary() {
    let a = BtDuration::new(2, 100);
    let b = BtDuration::new(0, 200);
    let d = a.sub(&b);
    assert_eq!(d.secs, 1);
    assert_eq!(d.nanos, 999_999_900);
}

#[test]
fn sub_without_borrow() {
    let a = BtDuration::new(2, 500);
    let b = BtDuration::new(1, 100);
    let d = a.sub(&b);
    assert_eq!(d.secs, 1);
    assert_eq!(d.nanos, 400);
}
