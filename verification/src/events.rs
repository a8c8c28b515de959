//! Notification records appended by the operations. They are a log for the
//! outside world, never consulted for control flow.

use vstd::prelude::*;

use crate::account::AccountId;
use crate::schedule::SubKind;

verus! {

/// Appended once when a pool is created.
#[derive(Clone, Copy, Debug, PartialEq, Eq, Structural)]
pub struct PoolInitialized {
    pub authority: AccountId,
    pub reward_mint: AccountId,
    pub usdc_mint: AccountId,
    pub initial_supply: u64,
    pub per_sub_allocation: u64,
    pub per_sub_price_usdc: u64,
    pub cliff_months: u8,
    pub gradual_cliff_months: u8,
    pub gradual_tranche_months: u8,
    pub gradual_tranches: u8,
}

/// A further funding of the reward vault. Kept for hosts that top the pool
/// up after initialization; no operation of the engine itself emits it.
#[derive(Clone, Copy, Debug, PartialEq, Eq, Structural)]
pub struct PoolFunded {
    pub amount: u64,
}

/// Appended for each new subscription.
#[derive(Clone, Copy, Debug, PartialEq, Eq, Structural)]
pub struct Subscribed {
    pub user: AccountId,
    pub amount: u64,
    pub unlock_at: i64,
    pub sub_index: u64,
    pub kind: SubKind,
    pub price_usdc: u64,
}

/// Appended for each successful claim, with the amount paid out by it.
#[derive(Clone, Copy, Debug, PartialEq, Eq, Structural)]
pub struct Claimed {
    pub user: AccountId,
    pub amount: u64,
}

/// Appended for each fee withdrawal by the authority.
#[derive(Clone, Copy, Debug, PartialEq, Eq, Structural)]
pub struct AdminUsdcWithdrawn {
    pub to: AccountId,
    pub amount: u64,
}

/// Appended whenever the authority pauses or unpauses the pool.
#[derive(Clone, Copy, Debug, PartialEq, Eq, Structural)]
pub struct PauseToggled {
    pub paused: bool,
}

} // verus!
