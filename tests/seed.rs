use platform::seed_from;

#[test]
fn seed_takes_os_entropy() {
    assert_eq!(seed_from(Some(42), 7), 42);
    assert_eq!(seed_from(Some(0), 7), 0);
}

#[test]
fn seed_falls_back_to_odd_hash() {
    assert_eq!(seed_from(None, 4), 9);
    assert_eq!(seed_from(None, 0), 1);
    assert_eq!(seed_from(None, u64::MAX), u64::MAX);
}
