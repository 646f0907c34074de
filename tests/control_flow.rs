use platform::{ControlFlow, ControlFlowExtension, Instant};

#[test]
fn set_earlier_from_each_policy() {
    let mut f = ControlFlow::Poll;
    f.set_earlier(Instant::from_nanos(5));
    assert_eq!(f, ControlFlow::Poll);

    let mut f = ControlFlow::Wait;
    f.set_earlier(Instant::from_nanos(5));
    assert_eq!(f, ControlFlow::WaitUntil(Instant::from_nanos(5)));

    f.set_earlier(Instant::from_nanos(9));
    assert_eq!(f, ControlFlow::WaitUntil(Instant::from_nanos(5)));

    f.set_earlier(Instant::from_nanos(2));
    assert_eq!(f, ControlFlow::WaitUntil(Instant::from_nanos(2)));
}

#[test]
fn set_policies_directly() {
    let mut f = ControlFlow::Wait;
    f.set_poll();
    assert_eq!(f, ControlFlow::Poll);
    f.set_wait_until(Instant::from_nanos(3));
    assert_eq!(f, ControlFlow::WaitUntil(Instant::from_nanos(3)));
    f.set_wait();
    assert_eq!(f, ControlFlow::Wait);
}
