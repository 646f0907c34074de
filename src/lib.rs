//! Frame scheduling and application-lifecycle logic for a windowed renderer.
//!
//! Time is kept as whole nanoseconds on a monotonic clock, so that every
//! scheduling decision can be stated and proved over integers. The shell
//! that owns the window reads the clock, feeds events in, and carries out
//! what comes back: redraws, wake policies and power-lock calls.

pub mod conditional_execution;
pub mod control_flow;
pub mod mount;
pub mod refs;
pub mod scheduler;
pub mod scheduler_lemmas;
pub mod seed;
pub mod time;
pub mod timer;
pub mod wake_lock;

pub use conditional_execution::{DetectChanges, Once};
pub use control_flow::{ControlFlow, ControlFlowExtension};
pub use mount::{EventExt, MountInput, MountStage, MountState, MountStep};
pub use refs::Static;
pub use scheduler::{
    BeforeEvent, FrameCtx, FrameScheduler, LockCall, Reaction, SchedulerView, WindowEventKind,
    STD_FRAME_NANOS,
};
pub use seed::seed_from;
pub use time::{Duration, Instant};
pub use wake_lock::WakeLockState;
