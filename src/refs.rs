use vstd::prelude::*;
use std::rc::Rc;

verus! {

/// A shared handle to a value that never changes once made: clones are
/// cheap and all see the same value.
#[derive(Debug)]
pub struct Static<T> {
    value: Rc<T>,
}

impl<T> View for Static<T> {
    type V = T;

    closed spec fn view(&self) -> T {
        *self.value
    }
}

impl<T> Static<T> {
    pub fn new(val: T) -> (r: Self)
        ensures
            r@ == val,
    {
        Static { value: Rc::new(val) }
    }

    pub fn get(&self) -> (r: &T)
        ensures
            *r == self@,
    {
        &*self.value
    }
}

impl<T> Clone for Static<T> {
    fn clone(&self) -> (r: Self)
        ensures
            r@ == self@,
    {
        Static { value: Rc::clone(&self.value) }
    }
}

} // verus!
