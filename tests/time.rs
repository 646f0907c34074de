use platform::{Duration, Instant};

#[test]
fn instant_arithmetic() {
    let t = Instant::from_nanos(10);
    assert_eq!(t.checked_add(Duration::from_nanos(5)), Some(Instant::from_nanos(15)));
    assert_eq!(Instant::from_nanos(u64::MAX).checked_add(Duration::from_nanos(1)), None);
    assert_eq!(Instant::from_nanos(u64::MAX - 1).saturating_add(Duration::from_nanos(9)).as_nanos(), u64::MAX);
    assert_eq!(Duration::from_millis(16).as_nanos(), 16_000_000);
}
