//! Bounded concurrency: a fixed number of permits, each held by one unit of
//! work from the moment it starts until it has finished.

use vstd::prelude::*;

verus! {

/// A counter of permits.  A unit of work may run only while it holds one, so
/// no more units run at a time than there are permits.
#[derive(Debug)]
pub struct Limiter {
    permits: usize,
    held: usize,
}

impl Limiter {
    #[verifier::type_invariant]
    spec fn bounded(self) -> bool {
        self.held <= self.permits
    }

    /// How many permits there are.
    pub closed spec fn permits(&self) -> nat {
        self.permits as nat
    }

    /// How many permits are held.
    pub closed spec fn held(&self) -> nat {
        self.held as nat
    }

    /// A limiter with this many permits, none of them held.
    pub fn new(permits: usize) -> (limiter: Limiter)
        ensures
            limiter.permits() == permits,
            limiter.held() == 0,
    {
        Limiter { permits, held: 0 }
    }

    /// Takes a permit if one is free, and says whether it did.
    pub fn try_acquire(&mut self) -> (granted: bool)
        ensures
            granted == (old(self).held() < old(self).permits()),
            final(self).held() == old(self).held() + (if granted { 1nat } else { 0nat }),
            final(self).permits() == old(self).permits(),
            final(self).held() <= final(self).permits(),
        no_unwind
    {
        proof {
            use_type_invariant(&*self);
        }
        if self.held < self.permits {
            self.held = self.held + 1;
            true
        } else {
            false
        }
    }

    /// Gives a permit back, and says whether one was held.
    pub fn release(&mut self) -> (returned: bool)
        ensures
            returned == (old(self).held() > 0),
            final(self).held() == old(self).held() - (if returned { 1nat } else { 0nat }),
            final(self).permits() == old(self).permits(),
            final(self).held() <= final(self).permits(),
        no_unwind
    {
        proof {
            use_type_invariant(&*self);
        }
        if self.held > 0 {
            self.held = self.held - 1;
            true
        } else {
            false
        }
    }

    /// The number of permits held.
    pub fn in_use(&self) -> (held: usize)
        ensures
            held == self.held(),
            held <= self.permits(),
    {
        proof {
            use_type_invariant(self);
        }
        self.held
    }

    /// The number of permits there are.
    pub fn capacity(&self) -> (permits: usize)
        ensures
            permits == self.permits(),
    {
        self.permits
    }
}

} // verus!
