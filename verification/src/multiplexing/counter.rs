//! Counting the substreams that are in use.

use vstd::prelude::*;

verus! {

/// The number of substreams of one connection that are in use. A substream
/// holds a guard for as long as it lives.
#[derive(Debug)]
pub struct SubstreamCounter {
    active: usize,
}

/// What a counted substream holds. It is given out by
/// [`SubstreamCounter::new_guard`] and handed back to
/// [`SubstreamCounter::release`] when the substream goes away.
#[derive(Debug)]
pub struct SubstreamGuard {
    held: (),
}

impl View for SubstreamCounter {
    type V = nat;

    closed spec fn view(&self) -> nat {
        self.active as nat
    }
}

impl SubstreamGuard {
    /// The guard. All guards are alike.
    pub closed spec fn any() -> SubstreamGuard {
        SubstreamGuard { held: () }
    }
}

impl SubstreamCounter {
    /// A counter for a connection without substreams.
    pub fn new() -> (counter: Self)
        ensures
            counter@ == 0,
    {
        SubstreamCounter { active: 0 }
    }

    /// The number of substreams in use.
    pub fn get(&self) -> (active: usize)
        ensures
            active == self@,
    {
        self.active
    }

    /// Counts one more substream. There is room as long as the number fits a `usize`.
    pub fn new_guard(&mut self) -> (guard: SubstreamGuard)
        requires
            old(self)@ < usize::MAX,
        ensures
            final(self)@ == old(self)@ + 1,
            guard == SubstreamGuard::any(),
    {
        self.active = self.active + 1;
        SubstreamGuard { held: () }
    }

    /// Stops counting the substream that held the guard.
    pub fn release(&mut self, _guard: SubstreamGuard)
        requires
            old(self)@ > 0,
        ensures
            final(self)@ == old(self)@ - 1,
    {
        self.active = self.active - 1;
    }
}

} // verus!
