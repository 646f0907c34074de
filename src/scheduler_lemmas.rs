use vstd::prelude::*;
use crate::control_flow::ControlFlow;
use crate::scheduler::{
    after_event_lock_calls, after_event_state, catches_up, frame_after, frame_delivered_state,
    FrameCtx, LockCall, SchedulerView,
};
use crate::time::{Duration, Instant};

verus! {

/// Setting `animate` a second time, with no frame in between, changes
/// nothing: state, context and wake policy stay as the first time left
/// them, and nothing is redrawn or locked.
pub proof fn lemma_animate_idempotent(
    s: SchedulerView,
    c: FrameCtx,
    f: ControlFlow,
    now1: Instant,
    now2: Instant,
)
    requires
        c.animate,
        !c.exit,
    ensures
        ({
            let first = after_event_state(s, c, now1, f);
            let second = after_event_state(first.0, first.1, now2, first.2);
            &&& second == first
            &&& !catches_up(first.0, first.1, now2)
            &&& after_event_lock_calls(first.0, first.1, None) == Seq::<LockCall>::empty()
        }),
{
    let first = after_event_state(s, c, now1, f);
    assert(after_event_lock_calls(first.0, first.1, None) =~= Seq::<LockCall>::empty());
}

/// A one-shot request never moves later. Asked for a delay no earlier than
/// the promised one, the promise stands, reads back in place of the asked
/// delay, and the wake policy is left as it was; asked for an earlier one,
/// the promise is replaced and a wake is set for it.
pub proof fn lemma_request_coalescing(
    s: SchedulerView,
    c: FrameCtx,
    f: ControlFlow,
    now: Instant,
    promised: Duration,
    asked: Duration,
)
    requires
        s.animate_seen ==> s.pending is None,
        !c.animate,
        !c.exit,
        s.pending == Some(promised),
        c.request == Some(asked),
    ensures
        ({
            let r = after_event_state(s, c, now, f);
            &&& asked.nanos >= promised.nanos ==> {
                &&& r.1.request == Some(promised)
                &&& r.0.pending == Some(promised)
                &&& r.2 == f
            }
            &&& asked.nanos < promised.nanos ==> {
                &&& r.1.request == Some(asked)
                &&& r.0.pending == Some(asked)
                &&& s.last.nanos + asked.nanos <= u64::MAX ==> r.2 == f.earlier(
                    Instant { nanos: (s.last.nanos + asked.nanos) as u64 },
                )
            }
        }),
{
}

/// Animation supersedes one-shot requests: once `animate` is taken in, a
/// request set afterwards reads back as none, and the wake policy stays.
pub proof fn lemma_animation_supersedes_request(
    s: SchedulerView,
    c: FrameCtx,
    f: ControlFlow,
    now1: Instant,
    now2: Instant,
    delay: Duration,
)
    requires
        c.animate,
        !c.exit,
    ensures
        ({
            let first = after_event_state(s, c, now1, f);
            let second = after_event_state(
                first.0,
                FrameCtx { request: Some(delay), ..first.1 },
                now2,
                first.2,
            );
            &&& first.1.request is None
            &&& second.1.request is None
            &&& second.0.pending is None
            &&& second.2 == first.2
        }),
{
}

/// A frame delivered a full period or more after it was due restarts the
/// frame clock at `now`, so that no burst of frames follows to catch up; one
/// delivered less than a period late keeps to the schedule.
pub proof fn lemma_drift_correction(s: SchedulerView, c: FrameCtx, now: Instant)
    ensures
        ({
            let r = frame_delivered_state(s, c, now);
            &&& s.next.nanos + c.duration.nanos <= now.nanos ==> {
                &&& r.0.last == now
                &&& r.0.next == frame_after(now, c.duration)
                &&& now.nanos + c.duration.nanos <= u64::MAX ==> r.0.next.nanos == now.nanos
                    + c.duration.nanos
                &&& c.animate ==> r.2 == ControlFlow::WaitUntil(r.0.next)
            }
            &&& s.next.nanos <= now.nanos < s.next.nanos + c.duration.nanos ==> {
                &&& r.0.last == s.next
                &&& r.0.next == frame_after(s.next, c.duration)
            }
        }),
{
}

/// A delivered frame honours the one-shot request: it reads back as none and
/// nothing stays promised. A frame delivered before the next one was due
/// restarts the frame clock at `now`; without animation the loop then sleeps
/// until the next event, with animation it wakes for the next frame.
pub proof fn lemma_frame_honours_request(s: SchedulerView, c: FrameCtx, now: Instant)
    ensures
        ({
            let r = frame_delivered_state(s, c, now);
            &&& r.1.request is None
            &&& r.0.pending is None
            &&& r.0.animate_seen == s.animate_seen
            &&& now.nanos < s.next.nanos ==> r.0.last == now
            &&& now.nanos + c.duration.nanos <= u64::MAX ==> r.0.next.nanos == r.0.last.nanos
                + c.duration.nanos
            &&& !c.animate ==> r.2 == ControlFlow::Wait
            &&& c.animate ==> r.2 == ControlFlow::WaitUntil(r.0.next)
        }),
{
}

/// Taking in the same `animate` flag and request a second time is a no-op:
/// no power-lock call, no redraw, and state, context and wake policy stay
/// as the first time left them.
pub proof fn lemma_reconcile_twice(
    s: SchedulerView,
    c: FrameCtx,
    f: ControlFlow,
    now1: Instant,
    now2: Instant,
)
    requires
        !c.exit,
    ensures
        ({
            let first = after_event_state(s, c, now1, f);
            let second = after_event_state(first.0, c, now2, first.2);
            &&& after_event_lock_calls(first.0, c, None) == Seq::<LockCall>::empty()
            &&& !catches_up(first.0, c, now2)
            &&& second == first
        }),
{
    let first = after_event_state(s, c, now1, f);
    assert(after_event_lock_calls(first.0, c, None) =~= Seq::<LockCall>::empty());
}

} // verus!
