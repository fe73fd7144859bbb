//! The primary wallet record: the root of authority for every vault derived
//! from it, binding an owner identity to the guardian identity whose
//! co-signature gates high-risk operations.

use vstd::prelude::*;

use crate::ids::AccountId;

verus! {

/// One owner's wallet record. The guardian identity bound here at creation
/// time is what every guardian-gated operation re-validates at call time.
#[derive(Clone, Copy, Debug)]
pub struct VokterWallet {
    /// The owner identity that controls the wallet.
    pub owner: AccountId,
    /// The guardian identity whose co-signature is required for high-risk
    /// operations.
    pub guardian: AccountId,
}

impl VokterWallet {
    /// The record's stored owner matches the signing owner.
    pub open spec fn owner_bound(&self, owner: AccountId) -> bool {
        self.owner@ == owner@
    }

    /// The record's stored guardian matches the signing guardian.
    pub open spec fn guardian_bound(&self, guardian: AccountId) -> bool {
        self.guardian@ == guardian@
    }
}

} // verus!
