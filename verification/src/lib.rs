//! A contract-invocation and resource-accounting engine.
//!
//! The crate models a ledger in which accounts may hold uploaded code and
//! instantiated contracts.  Invocations run as a bounded-depth stack of
//! transactional frames, metered by a compute budget and a storage-deposit
//! budget; terminated contracts' storage is reclaimed lazily by a deletion
//! queue, and a resumable migration stepper gates every mutating entry point.

use vstd::prelude::*;

pub mod weight;
pub mod types;
pub mod kv;
pub mod state;
pub mod hashing;
pub mod deposit;
pub mod exec;
pub mod pallet;

verus! {

/// Version tag for the host interface exposed to executing contracts.
pub struct ApiVersion(pub u16);

impl core::default::Default for ApiVersion {
    /// The current host-interface version.
    fn default() -> (r: Self)
        ensures
            r.0 == 4,
    {
        ApiVersion(4)
    }
}

} // verus!
