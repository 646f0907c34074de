use vstd::prelude::*;
use crate::time::Instant;

verus! {

/// When the event loop may next resume.
#[derive(Debug, Clone, Copy, PartialEq, Eq, Structural)]
pub enum ControlFlow {
    /// Resume at once, again and again.
    Poll,
    /// Sleep until the next event.
    Wait,
    /// Sleep until the next event or the given instant, whichever comes first.
    WaitUntil(Instant),
}

impl ControlFlow {
    /// The policy that also wakes at `instant`: a wait-forever becomes a wait
    /// until `instant`, a wait until some instant keeps the earlier of the two,
    /// and polling stays polling.
    pub open spec fn earlier(self, instant: Instant) -> ControlFlow {
        match self {
            ControlFlow::Poll => ControlFlow::Poll,
            ControlFlow::Wait => ControlFlow::WaitUntil(instant),
            ControlFlow::WaitUntil(other) => if instant.nanos <= other.nanos {
                ControlFlow::WaitUntil(instant)
            } else {
                ControlFlow::WaitUntil(other)
            },
        }
    }
}

/// Setting an event loop's wake policy.
pub trait ControlFlowExtension {
    /// The wake policy in force.
    spec fn control_flow(&self) -> ControlFlow;

    fn set_poll(&mut self)
        ensures
            final(self).control_flow() == ControlFlow::Poll,
    ;

    fn set_wait(&mut self)
        ensures
            final(self).control_flow() == ControlFlow::Wait,
    ;

    fn set_wait_until(&mut self, instant: Instant)
        ensures
            final(self).control_flow() == ControlFlow::WaitUntil(instant),
    ;

    /// Never moves a wake later: see `ControlFlow::earlier`.
    fn set_earlier(&mut self, instant: Instant)
        ensures
            final(self).control_flow() == old(self).control_flow().earlier(instant),
    ;
}

impl ControlFlowExtension for ControlFlow {
    open spec fn control_flow(&self) -> ControlFlow {
        *self
    }

    fn set_poll(&mut self) {
        *self = ControlFlow::Poll;
    }

    fn set_wait(&mut self) {
        *self = ControlFlow::Wait;
    }

    fn set_wait_until(&mut self, instant: Instant) {
        *self = ControlFlow::WaitUntil(instant);
    }

    fn set_earlier(&mut self, instant: Instant) {
        match *self {
            ControlFlow::Poll => {},
            ControlFlow::Wait => self.set_wait_until(instant),
            ControlFlow::WaitUntil(other) => {
                if instant.nanos <= other.nanos {
                    self.set_wait_until(instant);
                } else {
                    self.set_wait_until(other);
                }
            },
        }
    }
}

} // verus!
