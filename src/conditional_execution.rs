use vstd::prelude::*;
use vstd::std_specs::cmp::PartialEqSpec;

verus! {

/// Remembers the last value it was shown, to tell when a value has changed.
#[derive(Debug)]
pub struct DetectChanges<T: PartialEq + Clone> {
    state: T,
}

impl<T: PartialEq + Clone> View for DetectChanges<T> {
    type V = T;

    closed spec fn view(&self) -> T {
        self.state
    }
}

impl<T: PartialEq + Clone> DetectChanges<T> {
    pub fn new(initial_state: T) -> (r: Self)
        ensures
            r@ == initial_state,
    {
        DetectChanges { state: initial_state }
    }

    pub fn state(&self) -> (r: &T)
        ensures
            *r == self@,
    {
        &self.state
    }

    pub fn set_state(&mut self, state: T)
        ensures
            final(self)@ == state,
    {
        self.state = state;
    }

    /// Whether `state` differs from the value held, without recording it.
    pub fn changed(&self, state: &T) -> (r: bool)
        ensures
            T::obeys_eq_spec() ==> r == !self@.eq_spec(state),
    {
        self.state != *state
    }

    /// Whether `state` differs from the value held; if so, a clone of it is held from now on.
    pub fn note_change(&mut self, state: &T) -> (r: bool)
        ensures
            T::obeys_eq_spec() ==> r == !old(self)@.eq_spec(state),
            r ==> cloned(*state, final(self)@),
            !r ==> final(self)@ == old(self)@,
    {
        if self.changed(state) {
            self.set_state(state.clone());
            true
        } else {
            false
        }
    }
}

/// Lets an action run on the first call only, or on every call but the first.
#[derive(Debug)]
pub struct Once {
    once: bool,
}

impl View for Once {
    type V = bool;

    /// Whether a call has been made.
    closed spec fn view(&self) -> bool {
        self.once
    }
}

impl Once {
    pub fn new() -> (r: Self)
        ensures
            !r@,
    {
        Once { once: false }
    }

    /// Runs `func` if no call was made before; returns whether it ran.
    pub fn call_once<F: FnOnce()>(&mut self, func: F) -> (r: bool)
        requires
            !old(self)@ ==> func.requires(()),
        ensures
            r == !old(self)@,
            r ==> func.ensures((), ()),
            final(self)@,
    {
        if !self.once {
            self.once = true;
            func();
            true
        } else {
            false
        }
    }

    /// Runs `func` if a call was made before; returns whether it ran.
    pub fn call_but_once<F: FnOnce()>(&mut self, func: F) -> (r: bool)
        requires
            old(self)@ ==> func.requires(()),
        ensures
            r == old(self)@,
            r ==> func.ensures((), ()),
            final(self)@,
    {
        if self.once {
            func();
            true
        } else {
            self.once = true;
            false
        }
    }
}

} // verus!
