//! The two stored records: the pool aggregate and one subscription.

use vstd::prelude::*;

use crate::account::AccountId;
use crate::schedule::SubKind;

verus! {

/// Pool-wide aggregate state, one record per reward-mint deployment. It is
/// consulted and mutated by every operation; the host must serialize all
/// operations that touch the same pool record.
#[derive(Clone, Copy, Debug, PartialEq, Eq, Structural)]
pub struct GlobalPool {
    /// Identity allowed to pause the pool and withdraw collected fees.
    pub authority: AccountId,
    /// The reward asset this pool pays out.
    pub reward_mint: AccountId,
    /// The vault holding the pool's undistributed reward tokens.
    pub reward_vault: AccountId,
    /// The payment asset subscribers pay with.
    pub usdc_mint: AccountId,
    /// The vault holding the collected subscription fees.
    pub usdc_vault: AccountId,
    /// Sum of `amount - claimed_amount` over all open subscriptions.
    pub total_reserved: u64,
    /// Sum of everything ever paid out to subscribers.
    pub total_claimed: u64,
    /// Source of subscription identity; grows by one per subscription and is
    /// never reused.
    pub next_sub_index: u64,
    /// Gate on subscribe and claim.
    pub paused: bool,
    /// Running total of collected fees net of admin withdrawals.
    pub usdc_balance: u64,
    /// Months before a cliff subscription unlocks in full.
    pub cliff_months: u8,
    /// Months of initial lock on a gradual subscription.
    pub gradual_cliff_months: u8,
    /// Months between two tranches of a gradual subscription.
    pub gradual_tranche_months: u8,
    /// Number of equal tranches of a gradual subscription.
    pub gradual_tranches: u8,
}

impl GlobalPool {
    /// A workable schedule configuration: the gradual schedule divides by the
    /// tranche count and by the tranche length, so both must be positive.
    /// Established at initialization and never mutated afterwards.
    pub open spec fn wf(self) -> bool {
        &&& self.gradual_tranche_months >= 1
        &&& self.gradual_tranches >= 1
    }

    /// The quantity conserved by claims: reserved and claimed rewards
    /// together. Only a subscription ever increases it.
    pub open spec fn reserved_plus_claimed(self) -> int {
        self.total_reserved + self.total_claimed
    }
}

/// One subscription, created by `subscribe`, mutated only by `claim`,
/// destroyed by `close_subscription` once fully claimed. Owned by the
/// subscribing user and tied to one pool through its back-reference.
#[derive(Clone, Copy, Debug, PartialEq, Eq, Structural)]
pub struct Subscription {
    /// The pool this subscription was created against.
    pub pool: AccountId,
    /// The subscriber; the only identity allowed to claim.
    pub user: AccountId,
    /// The fixed reward allocation, set at creation.
    pub amount: u64,
    /// First instant at which any amount becomes claimable (informational).
    pub unlock_at: i64,
    /// True once the whole allocation has been claimed.
    pub claimed: bool,
    /// How much of the allocation has been paid out; non-decreasing and
    /// bounded by `amount`.
    pub claimed_amount: u64,
    /// Identity within the pool, taken from `next_sub_index` at creation.
    pub index: u64,
    /// Creation time.
    pub start_at: i64,
    /// Which vesting schedule governs this subscription.
    pub kind: SubKind,
}

impl Subscription {
    /// The record's own invariant, established at creation and preserved by
    /// every claim.
    pub open spec fn wf(self) -> bool {
        &&& self.claimed_amount <= self.amount
        &&& self.claimed ==> self.claimed_amount == self.amount
    }

    /// The vesting schedule governing this subscription.
    pub fn kind(&self) -> (k: SubKind)
        ensures
            k == self.kind,
    {
        self.kind
    }
}

} // verus!
