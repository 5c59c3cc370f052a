//! A generator of strictly increasing identifiers.

use vstd::prelude::*;

verus! {

/// Issues request identifiers, each one larger than the one before.
#[derive(Debug)]
pub struct Monotonic {
    inner: u64,
}

impl View for Monotonic {
    type V = u64;

    /// The identifier that will be issued next.
    closed spec fn view(&self) -> u64 {
        self.inner
    }
}

impl Monotonic {
    /// A generator whose first identifier is 0.
    pub fn new() -> (ids: Monotonic)
        ensures
            ids@ == 0,
    {
        Monotonic { inner: 0 }
    }

    /// The identifier that will be issued next, without issuing it.
    pub fn peek(&self) -> (id: u64)
        ensures
            id == self@,
    {
        self.inner
    }

    /// Issues the next identifier. Every later identifier is larger.
    pub fn next(&mut self) -> (id: u64)
        requires
            old(self)@ < u64::MAX,
        ensures
            id == old(self)@,
            final(self)@ == id + 1,
    {
        let id: u64 = self.inner;
        self.inner = id + 1;
        id
    }
}

} // verus!
