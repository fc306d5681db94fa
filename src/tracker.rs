//! The byte budget of a single allocation phase.

use vstd::prelude::*;

verus! {

/// Why a transaction could not be placed in the block.
#[derive(Debug, Clone, Copy, PartialEq, Eq, Structural)]
pub enum AllocFailure {
    /// The transaction does not fit in the space available to its
    /// category; `bin_space_left` is what that space still held.
    Rejected { bin_space_left: usize },
}

/// A byte capacity and how much of it has been handed out.
pub struct SpaceTracker {
    capacity: usize,
    used: usize,
}

impl SpaceTracker {
    #[verifier::type_invariant]
    spec fn within_capacity(self) -> bool {
        self.used <= self.capacity
    }

    /// The number of bytes this tracker may hand out in total.
    pub closed spec fn spec_capacity(self) -> nat {
        self.capacity as nat
    }

    /// The number of bytes handed out so far.
    pub closed spec fn spec_used(self) -> nat {
        self.used as nat
    }

    /// The number of bytes still available.
    pub open spec fn spec_remaining(self) -> nat {
        (self.spec_capacity() - self.spec_used()) as nat
    }

    /// Whether `r` and `after` are what an attempt to take `len` bytes
    /// from `before` gives: the bytes are taken exactly when they fit,
    /// and a refusal reports the space left and changes nothing.
    pub open spec fn admits(before: Self, len: nat, after: Self, r: Result<(), AllocFailure>) -> bool {
        &&& r is Ok <==> before.spec_used() + len <= before.spec_capacity()
        &&& after.spec_capacity() == before.spec_capacity()
        &&& r is Ok ==> after.spec_used() == before.spec_used() + len
        &&& r is Err ==> after == before && r == Err::<(), AllocFailure>(
            AllocFailure::Rejected { bin_space_left: before.spec_remaining() as usize },
        )
    }

    /// An empty tracker of the given capacity.
    pub fn new(capacity: usize) -> (t: Self)
        ensures
            t.spec_capacity() == capacity,
            t.spec_used() == 0,
    {
        SpaceTracker { capacity, used: 0 }
    }

    pub fn capacity(&self) -> (r: usize)
        ensures
            r == self.spec_capacity(),
    {
        self.capacity
    }

    pub fn used(&self) -> (r: usize)
        ensures
            r == self.spec_used(),
    {
        self.used
    }

    pub fn remaining(&self) -> (r: usize)
        ensures
            r == self.spec_remaining(),
    {
        proof {
            use_type_invariant(self);
        }
        self.capacity - self.used
    }

    /// Takes `len` bytes if they fit in what is left, else reports
    /// what is left and changes nothing.
    pub fn try_admit(&mut self, len: usize) -> (r: Result<(), AllocFailure>)
        ensures
            Self::admits(*old(self), len as nat, *final(self), r),
            final(self).spec_used() <= final(self).spec_capacity(),
        no_unwind
    {
        proof {
            use_type_invariant(&*self);
        }
        let left = self.capacity - self.used;
        if len <= left {
            self.used = self.used + len;
            Ok(())
        } else {
            Err(AllocFailure::Rejected { bin_space_left: left })
        }
    }
}

} // verus!
