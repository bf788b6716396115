use fargin::time::{Timestamp, MAX_TIMESTAMP_SECS};

#[test]
fn timestamp_bounds() {
    assert!(Timestamp::from_parts(0, 0).is_some());
    assert!(Timestamp::from_parts(MAX_TIMESTAMP_SECS, 999_999_999).is_some());
    assert!(Timestamp::from_parts(MAX_TIMESTAMP_SECS + 1, 0).is_none());
    assert!(Timestamp::from_parts(-1, 0).is_none());
    assert!(Timestamp::from_parts(10, 1_000_000_000).is_none());
}

#[test]
fn timestamp_order() {
    let a = Timestamp::from_parts(10, 5).unwrap();
    let b = Timestamp::from_parts(10, 6).unwrap();
    let c = Timestamp::from_parts(11, 0).unwrap();
    assert!(b.is_after(&a));
    assert!(c.is_after(&b));
    assert!(!a.is_after(&a));
    assert!(!a.is_after(&c));
}
