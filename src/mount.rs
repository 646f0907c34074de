use vstd::prelude::*;

verus! {

/// How far the window and the application have come up.
#[derive(Debug, Clone, Copy, PartialEq, Eq, Structural)]
pub enum MountStage {
    /// No window yet.
    Init,
    /// The window exists; its first resize has not come.
    Window { window_id: u64 },
    /// The application is being initialised, away from the event loop.
    Mounting { window_id: u64 },
    /// The application runs and takes events directly.
    Mounted,
}

/// What the mount logic needs to know of an event.
#[derive(Debug, Clone, Copy, PartialEq, Eq, Structural)]
pub enum MountInput {
    Resumed,
    Resized { window_id: u64 },
    /// The application's initialisation has reported back; `ready` tells
    /// whether its state could be taken.
    AppInit { window_id: u64, ready: bool },
    Other,
}

/// The events that the shell sends itself.
#[derive(Debug, Clone, Copy, PartialEq, Eq, Structural)]
pub enum EventExt {
    /// The application for the window has finished initialising.
    AppInit { window_id: u64 },
}

impl EventExt {
    /// What the mount logic reads of this event; `ready` tells whether the
    /// initialised application could be taken.
    pub fn mount_input(&self, ready: bool) -> (r: MountInput)
        ensures
            match *self {
                EventExt::AppInit { window_id } => r == (MountInput::AppInit { window_id, ready }),
            },
    {
        match *self {
            EventExt::AppInit { window_id } => MountInput::AppInit { window_id, ready },
        }
    }
}

/// What the shell is to do with an event.
#[derive(Debug)]
pub enum MountStep<E> {
    /// Nothing more: the event is held for later.
    Queued,
    /// Create the window, then report it with `window_created`.
    CreateWindow,
    /// Start initialising the application.
    StartInit,
    /// The application is up: hand it these held events, in order.
    Replay(Vec<E>),
    /// Hand this event to the application.
    Deliver(E),
    /// Nothing: the event is dropped.
    Dropped,
}

/// Holds events back until the window exists and the application is up,
/// then hands them over in the order they came.
#[derive(Debug)]
pub struct MountState<E> {
    stage: MountStage,
    queue: Vec<E>,
}

impl<E> View for MountState<E> {
    type V = (MountStage, Seq<E>);

    closed spec fn view(&self) -> (MountStage, Seq<E>) {
        (self.stage, self.queue@)
    }
}

impl<E> MountState<E> {
    pub fn new() -> (r: Self)
        ensures
            r@.0 == MountStage::Init,
            r@.1 == Seq::<E>::empty(),
    {
        MountState { stage: MountStage::Init, queue: Vec::new() }
    }

    pub fn stage(&self) -> (r: MountStage)
        ensures
            r == self@.0,
    {
        self.stage
    }

    /// The window was created: from now on its first resize starts the application.
    pub fn window_created(&mut self, window_id: u64)
        requires
            old(self)@.0 == MountStage::Init,
        ensures
            final(self)@ == (MountStage::Window { window_id }, old(self)@.1),
    {
        self.stage = MountStage::Window { window_id };
    }

    /// Takes in an event; `input` is what the shell read of it.
    pub fn event(&mut self, event: E, input: MountInput) -> (r: MountStep<E>)
        ensures
            match old(self)@.0 {
                MountStage::Mounted => {
                    &&& final(self)@ == old(self)@
                    &&& r matches MountStep::Deliver(e) && e == event
                },
                MountStage::Init => {
                    &&& final(self)@ == (MountStage::Init, old(self)@.1.push(event))
                    &&& if input == MountInput::Resumed {
                        r is CreateWindow
                    } else {
                        r is Queued
                    }
                },
                MountStage::Window { window_id } => if input == (MountInput::Resized { window_id }) {
                    &&& final(self)@ == (MountStage::Mounting { window_id }, old(self)@.1.push(event))
                    &&& r is StartInit
                } else {
                    &&& final(self)@ == (old(self)@.0, old(self)@.1.push(event))
                    &&& r is Queued
                },
                MountStage::Mounting { window_id } => if input == (MountInput::AppInit {
                    window_id,
                    ready: true,
                }) {
                    &&& final(self)@ == (MountStage::Mounted, Seq::<E>::empty())
                    &&& r matches MountStep::Replay(held) && held@ == old(self)@.1
                } else if input == (MountInput::AppInit { window_id, ready: false }) {
                    &&& final(self)@ == old(self)@
                    &&& r is Dropped
                } else {
                    &&& final(self)@ == (old(self)@.0, old(self)@.1.push(event))
                    &&& r is Queued
                },
            },
    {
        match self.stage {
            MountStage::Mounted => MountStep::Deliver(event),
            MountStage::Init => {
                self.queue.push(event);
                if input == MountInput::Resumed {
                    MountStep::CreateWindow
                } else {
                    MountStep::Queued
                }
            },
            MountStage::Window { window_id } => {
                self.queue.push(event);
                if input == (MountInput::Resized { window_id }) {
                    self.stage = MountStage::Mounting { window_id };
                    MountStep::StartInit
                } else {
                    MountStep::Queued
                }
            },
            MountStage::Mounting { window_id } => {
                if input == (MountInput::AppInit { window_id, ready: true }) {
                    let mut held: Vec<E> = Vec::new();
                    core::mem::swap(&mut held, &mut self.queue);
                    self.stage = MountStage::Mounted;
                    MountStep::Replay(held)
                } else if input == (MountInput::AppInit { window_id, ready: false }) {
                    MountStep::Dropped
                } else {
                    self.queue.push(event);
                    MountStep::Queued
                }
            },
        }
    }
}

} // verus!
