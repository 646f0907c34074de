use platform::{EventExt, MountInput, MountStage, MountState, MountStep};

#[test]
fn mount_holds_events_until_app_is_up() {
    let mut m: MountState<&str> = MountState::new();
    assert_eq!(m.stage(), MountStage::Init);
    assert!(matches!(m.event("key", MountInput::Other), MountStep::Queued));
    assert!(matches!(m.event("resumed", MountInput::Resumed), MountStep::CreateWindow));
    m.window_created(7);
    assert_eq!(m.stage(), MountStage::Window { window_id: 7 });
    assert!(matches!(m.event("other resize", MountInput::Resized { window_id: 8 }), MountStep::Queued));
    assert!(matches!(m.event("resize", MountInput::Resized { window_id: 7 }), MountStep::StartInit));
    assert_eq!(m.stage(), MountStage::Mounting { window_id: 7 });
    assert!(matches!(m.event("mouse", MountInput::Other), MountStep::Queued));
    assert!(matches!(m.event("stray init", MountInput::AppInit { window_id: 9, ready: true }), MountStep::Queued));
    assert!(matches!(m.event("early init", MountInput::AppInit { window_id: 7, ready: false }), MountStep::Dropped));
    match m.event("init", MountInput::AppInit { window_id: 7, ready: true }) {
        MountStep::Replay(held) => assert_eq!(
            held,
            vec!["key", "resumed", "other resize", "resize", "mouse", "stray init"]
        ),
        _ => panic!("expected the held events"),
    }
    assert_eq!(m.stage(), MountStage::Mounted);
    match m.event("late", MountInput::Other) {
        MountStep::Deliver(e) => assert_eq!(e, "late"),
        _ => panic!("expected delivery"),
    }
}

#[test]
fn app_init_event_maps_to_mount_input() {
    let e = EventExt::AppInit { window_id: 3 };
    assert_eq!(e.mount_input(true), MountInput::AppInit { window_id: 3, ready: true });
    assert_eq!(e.mount_input(false), MountInput::AppInit { window_id: 3, ready: false });
}
