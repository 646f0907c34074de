use platform::{DetectChanges, Duration, Once};

#[test]
fn detect_changes_reports_and_records() {
    let mut d = DetectChanges::new(false);
    assert_eq!(*d.state(), false);
    assert!(!d.changed(&false));
    assert!(d.changed(&true));
    assert_eq!(*d.state(), false);
    assert!(d.note_change(&true));
    assert_eq!(*d.state(), true);
    assert!(!d.note_change(&true));
    d.set_state(false);
    assert_eq!(*d.state(), false);
}

#[test]
fn detect_changes_on_optional_durations() {
    let mut d: DetectChanges<Option<Duration>> = DetectChanges::new(None);
    assert!(d.changed(&Some(Duration::from_nanos(0))));
    assert!(d.note_change(&Some(Duration::from_nanos(7))));
    assert_eq!(*d.state(), Some(Duration::from_nanos(7)));
    assert!(!d.changed(&Some(Duration::from_nanos(7))));
    assert!(d.changed(&Some(Duration::from_nanos(8))));
}

#[test]
fn once_runs_first_call_only() {
    let mut once = Once::new();
    let mut runs = 0;
    assert!(once.call_once(|| runs += 1));
    assert!(!once.call_once(|| runs += 1));
    assert!(!once.call_once(|| runs += 1));
    assert_eq!(runs, 1);
}

#[test]
fn once_skips_first_call_only() {
    let mut once = Once::new();
    let mut runs = 0;
    assert!(!once.call_but_once(|| runs += 1));
    assert!(once.call_but_once(|| runs += 1));
    assert!(once.call_but_once(|| runs += 1));
    assert_eq!(runs, 2);
}
