use force_touch::timing::{next_read_timeout, timeout_millis_until};

#[test]
fn read_timeout_is_the_earliest() {
    assert_eq!(next_read_timeout(None, None), 500);
    assert_eq!(next_read_timeout(Some(100), None), 100);
    assert_eq!(next_read_timeout(Some(1000), Some(20)), 20);
    assert_eq!(next_read_timeout(Some(0), Some(20)), 0);
    assert_eq!(next_read_timeout(None, Some(700)), 500);
}

#[test]
fn timeout_is_capped() {
    assert_eq!(timeout_millis_until(u128::MAX), i32::MAX);
    assert_eq!(timeout_millis_until(0), 0);
    assert_eq!(timeout_millis_until(1234), 1234);
}
