//! A box-like wrapper that keeps its value inline rather than on the heap.

use vstd::prelude::*;

verus! {

/// A wrapper holding one value.
pub struct MyBox<T>(pub T);

impl<T> MyBox<T> {
    /// Wraps a value.
    pub fn new(x: T) -> (b: MyBox<T>)
        ensures
            b.0 == x,
    {
        MyBox(x)
    }

    /// A borrow of the wrapped value, in place of dereferencing.
    pub fn value(&self) -> (r: &T)
        ensures
            *r == self.0,
    {
        &self.0
    }
}

} // verus!
