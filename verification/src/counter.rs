//! A bounded counter that hands out the numbers one through five, one per
//! call, and nothing after that.

use vstd::prelude::*;

verus! {

/// A source of values handed out one at a time, until it runs dry.
pub trait IteratorGen<T> {
    fn next(&mut self) -> Option<T>;
}

/// Counts upward from zero; `next` yields 1 through 5, then `None` forever.
pub struct Counter {
    count: u32,
}

impl Counter {
    /// How many values have been handed out so far.
    pub closed spec fn spec_count(&self) -> u32 {
        self.count
    }

    /// A fresh counter that has handed out nothing yet.
    pub fn new() -> (c: Counter)
        ensures
            c.spec_count() == 0,
    {
        Counter { count: 0 }
    }

    /// The next value, while fewer than five have been handed out.
    pub fn next(&mut self) -> (r: Option<u32>)
        ensures
            old(self).spec_count() < 5 ==> (final(self).spec_count() == old(self).spec_count() + 1
                && r == Some(final(self).spec_count())),
            old(self).spec_count() >= 5 ==> (r is None && *final(self) == *old(self)),
    {
        if self.count < 5 {
            self.count = self.count + 1;
            Some(self.count)
        } else {
            None
        }
    }
}

impl IteratorGen<u32> for Counter {
    fn next(&mut self) -> Option<u32> {
        Counter::next(self)
    }
}

} // verus!
