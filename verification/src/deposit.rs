//! The storage-deposit meter.
//!
//! Every frame carries a private sub-ledger of the storage-deposit budget:
//! a signed running net charge (positive: new deposit owed by the origin,
//! negative: deposit released) checked against the remaining allowance that
//! was handed down from the parent frame.  A charge that would exceed the
//! allowance fails, and the engine turns that failure into an abort of the
//! whole top-level invocation.  A frame that rolls back simply never merges
//! its sub-ledger into its parent, so a reverted operation contributes no
//! charge and no refund.

use vstd::prelude::*;

verus! {

/// Guard bound on meter arithmetic, far beyond any reachable deposit.
pub const DEPOSIT_CEIL: i128 = 0x1_0000_0000_0000_0000_0000_0000_0000;

/// Lower guard bound on the running net charge.
pub const DEPOSIT_FLOOR: i128 = -DEPOSIT_CEIL;

/// Largest single charge or refund the engine ever submits.
pub const DEPOSIT_STEP: i128 = 0x1_0000_0000_0000_0000;

/// One frame's storage-deposit sub-ledger.
pub struct StorageMeter {
    /// The allowance handed to this frame.
    pub limit: i128,
    /// The running net charge of this frame and its merged children.
    pub net: i128,
}

impl StorageMeter {
    /// The net charge never exceeds the allowance, and all values stay
    /// within the arithmetic guard bounds.
    pub open spec fn inv(self) -> bool {
        &&& DEPOSIT_FLOOR <= self.net
        &&& self.net <= self.limit
        &&& 0 <= self.limit <= DEPOSIT_CEIL
    }

    /// A fresh top-level meter with the given allowance.
    pub fn new(limit: u64) -> (r: StorageMeter)
        ensures
            r.limit == limit,
            r.net == 0,
            r.inv(),
    {
        StorageMeter { limit: limit as i128, net: 0 }
    }

    /// Records a signed deposit movement.  Fails — recording nothing — when
    /// the net charge would exceed the allowance (or leave the arithmetic
    /// guard range).
    pub fn charge(&mut self, delta: i128) -> (r: bool)
        requires
            old(self).inv(),
            -DEPOSIT_STEP <= delta <= DEPOSIT_STEP,
        ensures
            final(self).inv(),
            final(self).limit == old(self).limit,
            r == (DEPOSIT_FLOOR <= old(self).net + delta <= old(self).limit),
            r ==> final(self).net == old(self).net + delta,
            !r ==> final(self).net == old(self).net,
    {
        let next: i128 = self.net + delta;
        if DEPOSIT_FLOOR <= next && next <= self.limit {
            self.net = next;
            true
        } else {
            false
        }
    }

    /// Forgets charges recorded since the net was `net0`: the rollback of
    /// a frame discards its deposit deltas.
    pub fn rollback_to(&mut self, net0: i128)
        requires
            old(self).inv(),
            DEPOSIT_FLOOR <= net0 <= old(self).limit,
        ensures
            final(self).inv(),
            final(self).limit == old(self).limit,
            final(self).net == net0,
    {
        self.net = net0;
    }

    /// Opens the sub-ledger of a child frame: its allowance is what this
    /// frame has left.
    pub fn child(&self) -> (r: StorageMeter)
        requires
            self.inv(),
        ensures
            r.inv(),
            r.net == 0,
            r.limit == if self.limit - self.net <= DEPOSIT_CEIL {
                self.limit - self.net
            } else {
                DEPOSIT_CEIL as int
            },
            r.limit >= self.limit - self.net || r.limit == DEPOSIT_CEIL,
    {
        let room: i128 = self.limit - self.net;
        let lim: i128 = if room <= DEPOSIT_CEIL {
            room
        } else {
            DEPOSIT_CEIL
        };
        StorageMeter { limit: lim, net: 0 }
    }

    /// Merges a finished child frame's sub-ledger into this one.  Fails —
    /// merging nothing — only when the merged net would leave the
    /// arithmetic guard range.
    pub fn absorb(&mut self, child: &StorageMeter) -> (r: bool)
        requires
            old(self).inv(),
            child.inv(),
            child.limit <= old(self).limit - old(self).net || child.limit == DEPOSIT_CEIL
                && old(self).limit - old(self).net > DEPOSIT_CEIL,
        ensures
            final(self).inv(),
            final(self).limit == old(self).limit,
            r == (DEPOSIT_FLOOR <= old(self).net + child.net <= old(self).limit),
            r ==> final(self).net == old(self).net + child.net,
            !r ==> final(self).net == old(self).net,
    {
        let next: i128 = self.net + child.net;
        if DEPOSIT_FLOOR <= next && next <= self.limit {
            self.net = next;
            true
        } else {
            false
        }
    }
}

} // verus!
