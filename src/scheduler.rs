use vstd::prelude::*;
use crate::conditional_execution::DetectChanges;
use crate::control_flow::{ControlFlow, ControlFlowExtension};
use crate::time::{sat_add, Duration, Instant};

verus! {

/// The nominal frame period, in nanoseconds: sixty frames a second.
pub const STD_FRAME_NANOS: u64 = 1_000_000_000 / 60;

/// What the application sets between events to steer redrawing.
#[derive(Debug, Clone, Copy)]
pub struct FrameCtx {
    /// The animation frame period.
    pub duration: Duration,
    /// Whether to redraw continuously, once each `duration`.
    pub animate: bool,
    /// A one-shot demand: redraw no later than this delay after the last frame.
    pub request: Option<Duration>,
    /// Whether to hold the power lock while focused and animating.
    pub auto_wake_lock: bool,
    /// Whether the event loop is to end.
    pub exit: bool,
}

impl FrameCtx {
    pub fn new() -> (r: Self)
        ensures
            r.duration.nanos == STD_FRAME_NANOS,
            !r.animate,
            r.request is None,
            !r.auto_wake_lock,
            !r.exit,
    {
        FrameCtx {
            duration: Duration { nanos: STD_FRAME_NANOS },
            animate: false,
            request: None,
            auto_wake_lock: false,
            exit: false,
        }
    }
}

impl Default for FrameCtx {
    fn default() -> (r: Self)
        ensures
            r.duration.nanos == STD_FRAME_NANOS,
            !r.animate,
            r.request is None,
            !r.auto_wake_lock,
            !r.exit,
    {
        FrameCtx::new()
    }
}

/// A call to make on the power-management lock.
#[derive(Debug, Clone, Copy, PartialEq, Eq, Structural)]
pub enum LockCall {
    Request,
    Release,
}

/// The window events that the scheduler looks at before the application sees them.
#[derive(Debug, Clone, Copy, PartialEq, Eq, Structural)]
pub enum WindowEventKind {
    RedrawRequested,
    CloseRequested,
    Resized,
    ScaleFactorChanged,
    Focused(bool),
    Other,
}

/// What the shell is to do after the scheduler has seen a window event.
#[derive(Debug, Clone, Copy, PartialEq, Eq, Structural)]
pub struct BeforeEvent {
    /// Ask the window for a redraw.
    pub redraw: bool,
    /// The focus that the window gained or lost, to hand to `after_event`.
    pub focus_change: Option<bool>,
}

/// What the shell is to do after the application has handled an event.
#[derive(Debug)]
pub struct Reaction {
    /// End the event loop.
    pub exit: bool,
    /// Ask the window for a redraw at once.
    pub redraw: bool,
    /// Calls to make on the power lock, in this order.
    pub lock_calls: Vec<LockCall>,
}

/// Decides, after each event, when the next frame is drawn.
#[derive(Debug)]
pub struct FrameScheduler {
    animate: DetectChanges<bool>,
    requested: DetectChanges<Option<Duration>>,
    last: Instant,
    next: Instant,
}

/// The scheduler's state.
pub struct SchedulerView {
    /// The `animate` flag as last seen.
    pub animate_seen: bool,
    /// The one-shot request that is promised.
    pub pending: Option<Duration>,
    /// When the last frame was taken to start.
    pub last: Instant,
    /// When the next animation frame is due.
    pub next: Instant,
}

impl View for FrameScheduler {
    type V = SchedulerView;

    closed spec fn view(&self) -> SchedulerView {
        SchedulerView {
            animate_seen: self.animate@,
            pending: self.requested@,
            last: self.last,
            next: self.next,
        }
    }
}

/// The earlier of a promised delay and a newly asked one; asking for
/// nothing keeps the promise.
pub open spec fn earliest(pending: Option<Duration>, asked: Option<Duration>) -> Option<Duration> {
    match (pending, asked) {
        (_, None) => pending,
        (None, Some(d)) => Some(d),
        (Some(p), Some(d)) => if d.nanos < p.nanos {
            Some(d)
        } else {
            Some(p)
        },
    }
}

/// Whether the asked delay is strictly earlier than the promised one.
pub open spec fn moves_earlier(pending: Option<Duration>, asked: Option<Duration>) -> bool {
    match (pending, asked) {
        (_, None) => false,
        (None, Some(d)) => true,
        (Some(p), Some(d)) => d.nanos < p.nanos,
    }
}

/// Where a frame delivered at `now` is taken to start: on schedule, at
/// `next`, where it came less than one period after it; else at `now`.
pub open spec fn frame_start(next: Instant, duration: Duration, now: Instant) -> Instant {
    if next.nanos > now.nanos || next.nanos + duration.nanos <= now.nanos {
        now
    } else {
        next
    }
}

/// One period after `last`, held at the end of the clock's range.
pub open spec fn frame_after(last: Instant, duration: Duration) -> Instant {
    Instant { nanos: sat_add(last.nanos as int, duration.nanos as int) as u64 }
}

/// The state after a frame is delivered at `now`.
pub open spec fn frame_delivered_state(s: SchedulerView, c: FrameCtx, now: Instant) -> (
    SchedulerView,
    FrameCtx,
    ControlFlow,
) {
    let last = frame_start(s.next, c.duration, now);
    let next = frame_after(last, c.duration);
    (
        SchedulerView { animate_seen: s.animate_seen, pending: None, last, next },
        FrameCtx { request: None, ..c },
        if c.animate {
            ControlFlow::WaitUntil(next)
        } else {
            ControlFlow::Wait
        },
    )
}

/// `animate` was set since the last event.
pub open spec fn starts_animating(s: SchedulerView, c: FrameCtx) -> bool {
    !s.animate_seen && c.animate
}

/// `animate` was cleared since the last event.
pub open spec fn stops_animating(s: SchedulerView, c: FrameCtx) -> bool {
    s.animate_seen && !c.animate
}

/// Animation starts while its next frame is already due: draw at once.
pub open spec fn catches_up(s: SchedulerView, c: FrameCtx, now: Instant) -> bool {
    starts_animating(s, c) && s.next.nanos <= now.nanos
}

/// The wake policy once a change of `animate` is taken in.
pub open spec fn animation_flow(s: SchedulerView, c: FrameCtx, now: Instant, f: ControlFlow) -> ControlFlow {
    if starts_animating(s, c) {
        if s.next.nanos <= now.nanos {
            f
        } else {
            f.earlier(s.next)
        }
    } else if stops_animating(s, c) {
        ControlFlow::Wait
    } else {
        f
    }
}

/// The instant to wake at for a request that moves the promise earlier,
/// counted from the last frame; none where it lies beyond the clock's range.
pub open spec fn request_deadline(s: SchedulerView, c: FrameCtx) -> Option<Instant> {
    match c.request {
        Some(d) => if !c.animate && moves_earlier(s.pending, c.request) && s.last.nanos
            + d.nanos <= u64::MAX {
            Some(Instant { nanos: (s.last.nanos + d.nanos) as u64 })
        } else {
            None
        },
        None => None,
    }
}

/// The state after the application has handled an event.
pub open spec fn after_event_state(s: SchedulerView, c: FrameCtx, now: Instant, f: ControlFlow) -> (
    SchedulerView,
    FrameCtx,
    ControlFlow,
) {
    if c.exit {
        (s, c, f)
    } else {
        let request = if c.animate {
            None
        } else {
            earliest(s.pending, c.request)
        };
        let next = if catches_up(s, c, now) {
            now
        } else {
            s.next
        };
        let f1 = animation_flow(s, c, now, f);
        let f2 = match request_deadline(s, c) {
            Some(i) => f1.earlier(i),
            None => f1,
        };
        (
            SchedulerView { animate_seen: c.animate, pending: request, last: s.last, next },
            FrameCtx { request, ..c },
            f2,
        )
    }
}

/// Losing focus releases the lock; gaining it takes the lock where asked to.
pub open spec fn focus_lock_calls(focus_change: Option<bool>, auto_wake_lock: bool) -> Seq<LockCall> {
    match focus_change {
        Some(false) => seq![LockCall::Release],
        Some(true) => if auto_wake_lock {
            seq![LockCall::Request]
        } else {
            seq![]
        },
        None => seq![],
    }
}

/// Starting to animate takes the lock where asked to; stopping releases it.
pub open spec fn animation_lock_calls(s: SchedulerView, c: FrameCtx) -> Seq<LockCall> {
    if starts_animating(s, c) && c.auto_wake_lock {
        seq![LockCall::Request]
    } else if stops_animating(s, c) {
        seq![LockCall::Release]
    } else {
        seq![]
    }
}

/// The power-lock calls after the application has handled an event.
pub open spec fn after_event_lock_calls(
    s: SchedulerView,
    c: FrameCtx,
    focus_change: Option<bool>,
) -> Seq<LockCall> {
    if c.exit {
        seq![]
    } else {
        focus_lock_calls(focus_change, c.auto_wake_lock) + animation_lock_calls(s, c)
    }
}

impl FrameScheduler {
    /// While animating, no one-shot request is promised.
    pub open spec fn wf(&self) -> bool {
        self@.animate_seen ==> self@.pending is None
    }

    /// A scheduler for a window created at `now`; the first event after it
    /// always takes in the `animate` flag as a change.
    pub fn new(ctx: &FrameCtx, now: Instant) -> (r: Self)
        ensures
            r@ == (SchedulerView {
                animate_seen: !ctx.animate,
                pending: None,
                last: now,
                next: frame_after(now, ctx.duration),
            }),
            r.wf(),
    {
        FrameScheduler {
            animate: DetectChanges::new(!ctx.animate),
            requested: DetectChanges::new(None),
            last: now,
            next: now.saturating_add(ctx.duration),
        }
    }

    pub fn last(&self) -> (r: Instant)
        ensures
            r == self@.last,
    {
        self.last
    }

    pub fn next(&self) -> (r: Instant)
        ensures
            r == self@.next,
    {
        self.next
    }

    pub fn pending(&self) -> (r: Option<Duration>)
        ensures
            r == self@.pending,
    {
        *self.requested.state()
    }

    /// Book-keeping for a redraw, before the application draws: the request
    /// is honoured, and the frame clock moves on without drifting.
    pub fn frame_delivered(&mut self, ctx: &mut FrameCtx, now: Instant, flow: &mut ControlFlow)
        requires
            old(self).wf(),
        ensures
            (final(self)@, *final(ctx), *final(flow)) == frame_delivered_state(
                old(self)@,
                *old(ctx),
                now,
            ),
            final(self).wf(),
    {
        ctx.request = None;
        self.requested.set_state(None);
        let on_time = self.next.nanos <= now.nanos && (ctx.duration.nanos > now.nanos
            || self.next.nanos > now.nanos - ctx.duration.nanos);
        if !on_time {
            self.last = now;
        } else {
            self.last = self.next;
        }
        self.next = self.last.saturating_add(ctx.duration);
        if ctx.animate {
            flow.set_wait_until(self.next);
        } else {
            flow.set_wait();
        }
    }

    /// Takes in what the application changed while it handled an event: a
    /// change of `animate`, a new one-shot request, and a change of focus.
    pub fn after_event(
        &mut self,
        ctx: &mut FrameCtx,
        focus_change: Option<bool>,
        now: Instant,
        flow: &mut ControlFlow,
    ) -> (r: Reaction)
        requires
            old(self).wf(),
        ensures
            (final(self)@, *final(ctx), *final(flow)) == after_event_state(
                old(self)@,
                *old(ctx),
                now,
                *old(flow),
            ),
            r.exit == old(ctx).exit,
            r.redraw == (!old(ctx).exit && catches_up(old(self)@, *old(ctx), now)),
            r.lock_calls@ == after_event_lock_calls(old(self)@, *old(ctx), focus_change),
            final(self).wf(),
    {
        let mut lock_calls: Vec<LockCall> = Vec::new();
        if ctx.exit {
            return Reaction { exit: true, redraw: false, lock_calls };
        }
        match focus_change {
            Some(focus) => {
                if !focus {
                    lock_calls.push(LockCall::Release);
                } else if ctx.auto_wake_lock {
                    lock_calls.push(LockCall::Request);
                }
            },
            None => {},
        }
        let ghost calls_for_focus = lock_calls@;
        let mut redraw = false;
        if self.animate.note_change(&ctx.animate) {
            if ctx.animate {
                ctx.request = None;
                self.requested.set_state(None);
                if ctx.auto_wake_lock {
                    lock_calls.push(LockCall::Request);
                }
                if self.next.nanos <= now.nanos {
                    self.next = now;
                    redraw = true;
                } else {
                    flow.set_earlier(self.next);
                }
            } else {
                lock_calls.push(LockCall::Release);
                flow.set_wait();
            }
        }
        assert(lock_calls@ == calls_for_focus + animation_lock_calls(old(self)@, *old(ctx)));
        if self.requested.changed(&ctx.request) {
            if ctx.animate {
                ctx.request = None;
                self.requested.set_state(None);
            } else {
                match ctx.request {
                    Some(delay) => {
                        let earlier = match *self.requested.state() {
                            None => {
                                self.requested.set_state(Some(delay));
                                true
                            },
                            Some(previous) => {
                                if delay.nanos < previous.nanos {
                                    self.requested.set_state(Some(delay));
                                    true
                                } else {
                                    ctx.request = Some(previous);
                                    false
                                }
                            },
                        };
                        if earlier {
                            match self.last.checked_add(delay) {
                                Some(instant) => flow.set_earlier(instant),
                                None => {},
                            }
                        }
                    },
                    None => {
                        ctx.request = *self.requested.state();
                    },
                }
            }
        }
        Reaction { exit: false, redraw, lock_calls }
    }

    /// Handles a window event before the application sees it.
    pub fn before_window_event(
        &mut self,
        ctx: &mut FrameCtx,
        event: WindowEventKind,
        now: Instant,
        flow: &mut ControlFlow,
    ) -> (r: BeforeEvent)
        requires
            old(self).wf(),
        ensures
            final(self).wf(),
            event == WindowEventKind::RedrawRequested ==> (final(self)@, *final(ctx), *final(flow))
                == frame_delivered_state(old(self)@, *old(ctx), now),
            event != WindowEventKind::RedrawRequested ==> final(self)@ == old(self)@ && *final(flow)
                == *old(flow),
            event == WindowEventKind::CloseRequested ==> *final(ctx) == (FrameCtx {
                exit: true,
                ..*old(ctx)
            }),
            event != WindowEventKind::RedrawRequested && event != WindowEventKind::CloseRequested
                ==> *final(ctx) == *old(ctx),
            r.redraw == (event == WindowEventKind::Resized || event
                == WindowEventKind::ScaleFactorChanged),
            r.focus_change == match event {
                WindowEventKind::Focused(focus) => Some(focus),
                _ => None,
            },
    {
        match event {
            WindowEventKind::RedrawRequested => {
                self.frame_delivered(ctx, now, flow);
                BeforeEvent { redraw: false, focus_change: None }
            },
            WindowEventKind::CloseRequested => {
                ctx.exit = true;
                BeforeEvent { redraw: false, focus_change: None }
            },
            WindowEventKind::Resized | WindowEventKind::ScaleFactorChanged => {
                BeforeEvent { redraw: true, focus_change: None }
            },
            WindowEventKind::Focused(focus) => BeforeEvent { redraw: false, focus_change: Some(focus) },
            WindowEventKind::Other => BeforeEvent { redraw: false, focus_change: None },
        }
    }
}

} // verus!
