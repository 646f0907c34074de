use vstd::prelude::*;

verus! {

/// Whether the power-management lock is held. Requesting a held lock and
/// releasing a free one succeed and do nothing, so that the system is asked
/// only on a change.
#[derive(Debug)]
pub struct WakeLockState {
    active: bool,
}

impl View for WakeLockState {
    type V = bool;

    closed spec fn view(&self) -> bool {
        self.active
    }
}

impl WakeLockState {
    pub fn new() -> (r: Self)
        ensures
            !r@,
    {
        WakeLockState { active: false }
    }

    pub fn is_active(&self) -> (r: bool)
        ensures
            r == self@,
    {
        self.active
    }

    /// Takes the lock through `acquire`, unless it is held already; it is
    /// held afterwards if it was, or if `acquire` succeeded.
    pub fn request<E, F: FnOnce() -> Result<(), E>>(&mut self, acquire: F) -> (r: Result<(), E>)
        requires
            !old(self)@ ==> acquire.requires(()),
        ensures
            old(self)@ ==> r is Ok && final(self)@,
            !old(self)@ ==> acquire.ensures((), r) && final(self)@ == (r is Ok),
    {
        if !self.active {
            let r = acquire();
            if r.is_ok() {
                self.active = true;
            }
            r
        } else {
            Ok(())
        }
    }

    /// Gives the lock up through `free`, unless it is free already; it is
    /// free afterwards if it was, or if `free` succeeded.
    pub fn release<E, F: FnOnce() -> Result<(), E>>(&mut self, free: F) -> (r: Result<(), E>)
        requires
            old(self)@ ==> free.requires(()),
        ensures
            !old(self)@ ==> r is Ok && !final(self)@,
            old(self)@ ==> free.ensures((), r) && final(self)@ == (r is Err),
    {
        if self.active {
            let r = free();
            if r.is_ok() {
                self.active = false;
            }
            r
        } else {
            Ok(())
        }
    }
}

} // verus!
