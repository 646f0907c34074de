use platform::timer::{IntervalCounter, NormInterval, StepInterval};
use platform::{Duration, Instant};

fn t(n: u64) -> Instant {
    Instant::from_nanos(n)
}

#[test]
fn step_interval_elapsed_counts_periods() {
    let s = StepInterval::new(Duration::from_nanos(10), t(100));
    assert_eq!(s.next, t(110));
    assert_eq!(s.elapsed(t(110)), 1);
    assert_eq!(s.elapsed(t(119)), 1);
    assert_eq!(s.elapsed(t(135)), 3);
    assert_eq!(s.elapsed(t(105)), 0);
    assert_eq!(s.elapsed(t(85)), -2);
}

#[test]
fn step_interval_elapsed_is_clamped() {
    let s = StepInterval { next: t(0), duration: Duration::from_nanos(1) };
    assert_eq!(s.elapsed(t(u64::MAX)), i64::MAX);
    let s = StepInterval { next: t(u64::MAX), duration: Duration::from_nanos(1) };
    assert_eq!(s.elapsed(t(0)), -i64::MAX);
}

#[test]
fn step_interval_step_by() {
    let mut s = StepInterval::new(Duration::from_nanos(10), t(100));
    s.step_by(3);
    assert_eq!(s.next, t(140));
    s.step_by(-2);
    assert_eq!(s.next, t(120));
    s.step_by(-13);
    assert_eq!(s.next, t(120));
    s.step_by(i64::MAX);
    assert_eq!(s.next, t(120));
    s.step_by(0);
    assert_eq!(s.next, t(120));
}

#[test]
fn step_interval_step_if_elapsed() {
    let mut s = StepInterval::new(Duration::from_nanos(10), t(100));
    assert_eq!(s.step_if_elapsed(t(105)), 0);
    assert_eq!(s.next, t(110));
    assert_eq!(s.step_if_elapsed(t(134)), 3);
    assert_eq!(s.next, t(140));
}

#[test]
fn step_interval_step_next() {
    let mut s = StepInterval::new(Duration::from_nanos(10), t(100));
    assert_eq!(s.step_next(t(125)), 2);
    assert_eq!(s.next, t(130));
    assert_eq!(s.step_next(t(125)), 0);
    assert_eq!(s.next, t(130));
    assert_eq!(s.step_next(t(110)), -2);
    assert_eq!(s.next, t(120));
    assert_eq!(s.step_next(t(95)), -2);
    assert_eq!(s.next, t(100));
}

#[test]
fn step_next_lands_after_now_within_a_period() {
    let mut s = StepInterval { next: t(100), duration: Duration::from_nanos(10) };
    assert_eq!(s.step_next(t(95)), 0);
    assert_eq!(s.next, t(100));
    for now in [0u64, 7, 50, 99, 100, 101, 109, 110, 163, 1000] {
        let mut s = StepInterval { next: t(100), duration: Duration::from_nanos(10) };
        s.step_next(t(now));
        assert!(now < s.next.as_nanos() && s.next.as_nanos() <= now + 10, "now {now}");
    }
}

#[test]
fn interval_counter_hands_over_count() {
    let mut c = IntervalCounter::new(Duration::from_nanos(10), t(0));
    c.add();
    c.add();
    assert!(c.count(t(5)).is_none());
    assert_eq!(c.count, 2);
    let counted = c.count(t(10)).unwrap();
    assert_eq!(counted.count, 2);
    assert_eq!(counted.duration, Duration::from_nanos(10));
    assert_eq!(c.count, 0);
    assert_eq!(c.interval.next, t(20));
}

#[test]
fn norm_interval_starts_now() {
    let n = NormInterval::new(Duration::from_nanos(4), t(9));
    assert_eq!(n.instant, t(9));
    assert_eq!(n.duration, Duration::from_nanos(4));
}
