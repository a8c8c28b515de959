//! A token reward pool with paid subscriptions and time-based vesting.
//!
//! Users pay a fixed fee to reserve a fixed reward allocation that unlocks
//! either all at once after a cliff period or in equal monthly tranches after
//! an initial lock. An administrator can pause new activity and withdraw the
//! collected fees.
//!
//! The library is the accounting engine alone. Moving funds between accounts,
//! addressing the stored records, verifying the caller's signature and reading
//! the wall clock are the host's business: every operation here is a pure
//! transition that takes the pool and subscription records together with the
//! values the host read (caller identity, vault balance, current time) and
//! returns the new records plus, at most, one transfer for the host's ledger
//! to carry out. An operation either succeeds with all of its effects or
//! fails with an error and no state change.

use vstd::prelude::*;

pub mod account;
pub mod errors;
pub mod events;
pub mod laws;
pub mod ops;
pub mod schedule;
pub mod state;

verus! {

/// Reward tokens moved into the reward vault when a pool is initialized.
pub const INITIAL_SUPPLY: u64 = 4_000_000_000_000;

/// Reward tokens reserved for each subscription.
pub const PER_SUB_ALLOCATION: u64 = 20_000_000_000;

/// Payment-asset price of one subscription.
pub const PER_SUB_PRICE_USDC: u64 = 10_000_000;

/// Length of one schedule month in seconds.
pub const SECS_PER_MONTH: i64 = 60;

/// Months before a cliff subscription unlocks in full.
pub const CLIFF_MONTHS: u8 = 6;

/// Months of initial lock on a gradual subscription.
pub const GRADUAL_CLIFF_MONTHS: u8 = 5;

/// Months between two tranches of a gradual subscription.
pub const GRADUAL_TRANCHE_MONTHS: u8 = 1;

/// Number of equal tranches of a gradual subscription.
pub const GRADUAL_TRANCHES: u8 = 4;

} // verus!
