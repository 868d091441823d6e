//! Two-dimensional execution weight and the compute meter.
//!
//! A [`Weight`] carries a time component and a proof-size component; a frame
//! of execution draws from a [`GasMeter`] whose budget is fixed when the
//! frame is entered.  Nested frames reserve a sub-budget from their parent
//! and settle their actual consumption back into it when they finish, so
//! unused reservation is returned while spent compute never is.

use vstd::prelude::*;

verus! {

/// A two-dimensional amount of computational work.
#[derive(Clone, Copy, PartialEq, Eq, Structural, Debug)]
pub struct Weight {
    /// Computation time measured in picoseconds of reference hardware.
    pub ref_time: u64,
    /// Proof size measured in bytes.
    pub proof_size: u64,
}

impl Weight {
    /// The zero weight.
    pub fn zero() -> (r: Weight)
        ensures
            r.ref_time == 0 && r.proof_size == 0,
    {
        Weight { ref_time: 0, proof_size: 0 }
    }

    /// Builds a weight from its two components.
    pub fn from_parts(ref_time: u64, proof_size: u64) -> (r: Weight)
        ensures
            r.ref_time == ref_time && r.proof_size == proof_size,
    {
        Weight { ref_time, proof_size }
    }

    /// Both components of `self` are at most those of `other`.
    pub open spec fn spec_fits(self, other: Weight) -> bool {
        self.ref_time <= other.ref_time && self.proof_size <= other.proof_size
    }

    /// Component-wise comparison: does `self` fit within `other`?
    pub fn fits(&self, other: &Weight) -> (r: bool)
        ensures
            r == self.spec_fits(*other),
    {
        self.ref_time <= other.ref_time && self.proof_size <= other.proof_size
    }

    /// Component-wise sum, as a mathematical value.
    pub open spec fn spec_add(self, other: Weight) -> Weight {
        Weight {
            ref_time: (self.ref_time + other.ref_time) as u64,
            proof_size: (self.proof_size + other.proof_size) as u64,
        }
    }

    /// Component-wise sum; the caller must rule overflow out.
    pub fn add(&self, other: &Weight) -> (r: Weight)
        requires
            self.ref_time + other.ref_time <= u64::MAX,
            self.proof_size + other.proof_size <= u64::MAX,
        ensures
            r == self.spec_add(*other),
    {
        Weight {
            ref_time: self.ref_time + other.ref_time,
            proof_size: self.proof_size + other.proof_size,
        }
    }

    /// Component-wise saturating sum.
    pub fn saturating_add(&self, other: &Weight) -> (r: Weight)
        ensures
            r.ref_time == if self.ref_time + other.ref_time <= u64::MAX {
                self.ref_time + other.ref_time
            } else {
                u64::MAX as int
            },
            r.proof_size == if self.proof_size + other.proof_size <= u64::MAX {
                self.proof_size + other.proof_size
            } else {
                u64::MAX as int
            },
    {
        let rt: u64 = if self.ref_time <= u64::MAX - other.ref_time {
            self.ref_time + other.ref_time
        } else {
            u64::MAX
        };
        let ps: u64 = if self.proof_size <= u64::MAX - other.proof_size {
            self.proof_size + other.proof_size
        } else {
            u64::MAX
        };
        Weight { ref_time: rt, proof_size: ps }
    }

    /// Component-wise difference, as a mathematical value.
    pub open spec fn spec_sub(self, other: Weight) -> Weight {
        Weight {
            ref_time: (self.ref_time - other.ref_time) as u64,
            proof_size: (self.proof_size - other.proof_size) as u64,
        }
    }

    /// Component-wise difference; the caller must rule underflow out.
    pub fn sub(&self, other: &Weight) -> (r: Weight)
        requires
            other.spec_fits(*self),
        ensures
            r == self.spec_sub(*other),
    {
        Weight {
            ref_time: self.ref_time - other.ref_time,
            proof_size: self.proof_size - other.proof_size,
        }
    }
}

/// The compute meter of one execution frame.
///
/// `limit` is the frame's budget and never changes while the frame runs;
/// `consumed` only grows.  A child frame's meter is carved out of its
/// parent's remaining budget with [`GasMeter::reserve`] and folded back with
/// [`GasMeter::settle`].
pub struct GasMeter {
    /// The fixed budget of this frame.
    pub limit: Weight,
    /// How much of the budget has been spent.
    pub consumed: Weight,
}

impl GasMeter {
    /// The meter never records more consumption than its budget.
    pub open spec fn inv(self) -> bool {
        self.consumed.spec_fits(self.limit)
    }

    /// What is still available to this frame.
    pub open spec fn spec_remaining(self) -> Weight {
        self.limit.spec_sub(self.consumed)
    }

    /// A fresh meter with the given budget and nothing consumed.
    pub fn new(limit: Weight) -> (r: GasMeter)
        ensures
            r.limit == limit,
            r.consumed == (Weight { ref_time: 0, proof_size: 0 }),
            r.inv(),
    {
        GasMeter { limit, consumed: Weight { ref_time: 0, proof_size: 0 } }
    }

    /// What is still available to this frame.
    pub fn remaining(&self) -> (r: Weight)
        requires
            self.inv(),
        ensures
            r == self.spec_remaining(),
    {
        self.limit.sub(&self.consumed)
    }

    /// Draws `amount` from the budget.  Fails when the budget would be
    /// exceeded; the whole remaining budget is then forfeited, so exhaustion
    /// is reported with exact (full) consumption.
    pub fn charge(&mut self, amount: Weight) -> (r: bool)
        requires
            old(self).inv(),
        ensures
            final(self).inv(),
            final(self).limit == old(self).limit,
            r == amount.spec_fits(old(self).spec_remaining()),
            r ==> final(self).consumed == old(self).consumed.spec_add(amount),
            !r ==> final(self).consumed == old(self).limit,
    {
        if amount.fits(&self.remaining()) {
            self.consumed = self.consumed.add(&amount);
            true
        } else {
            self.consumed = self.limit;
            false
        }
    }

    /// Draws `amount` from the budget if it fits, and otherwise leaves the
    /// meter untouched: the form of metering used for background work,
    /// where exhaustion just ends the batch.
    pub fn try_charge(&mut self, amount: Weight) -> (r: bool)
        requires
            old(self).inv(),
        ensures
            final(self).inv(),
            final(self).limit == old(self).limit,
            r == amount.spec_fits(old(self).spec_remaining()),
            r ==> final(self).consumed == old(self).consumed.spec_add(amount),
            !r ==> *final(self) == *old(self),
    {
        if amount.fits(&self.remaining()) {
            self.consumed = self.consumed.add(&amount);
            true
        } else {
            false
        }
    }

    /// Carves a child budget of `amount` out of the remaining budget.
    /// Fails closed when the parent has less than `amount` left; nothing is
    /// allocated then.
    pub fn reserve(&self, amount: Weight) -> (r: Option<GasMeter>)
        requires
            self.inv(),
        ensures
            r is Some <==> amount.spec_fits(self.spec_remaining()),
            r is Some ==> r->0.limit == amount && r->0.consumed == (Weight {
                ref_time: 0,
                proof_size: 0,
            }) && r->0.inv(),
    {
        if amount.fits(&self.remaining()) {
            Some(GasMeter::new(amount))
        } else {
            None
        }
    }

    /// Folds a finished child meter back into this one: the child's actual
    /// consumption is added, and its unused reservation is implicitly
    /// returned.
    pub fn settle(&mut self, child: GasMeter)
        requires
            old(self).inv(),
            child.inv(),
            child.limit.spec_fits(old(self).spec_remaining()),
        ensures
            final(self).inv(),
            final(self).limit == old(self).limit,
            final(self).consumed == old(self).consumed.spec_add(child.consumed),
    {
        self.consumed = self.consumed.add(&child.consumed);
    }
}

} // verus!
