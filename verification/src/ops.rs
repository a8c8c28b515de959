//! The state-changing operations of the pool.
//!
//! Each operation is one indivisible transition: it takes the stored records
//! together with everything the host read for it (caller identity, reward
//! vault balance, current time) and either returns the new records with at
//! most one ledger transfer to carry out, or fails with an error and leaves
//! every record exactly as it was. The host serializes all operations on one
//! pool, performs the returned transfer, verifies signatures and derives
//! record addresses; none of that changes the accounting stated here.

use vstd::prelude::*;

use crate::account::AccountId;
use crate::errors::ErrorCode;
use crate::events::{AdminUsdcWithdrawn, Claimed, PauseToggled, PoolInitialized, Subscribed};
use crate::schedule::{
    lemma_vested_le_amount, months_to_secs, spec_months_to_secs, spec_vested_amount,
    vested_amount, SubKind,
};
use crate::state::{GlobalPool, Subscription};
use crate::{
    CLIFF_MONTHS, GRADUAL_CLIFF_MONTHS, GRADUAL_TRANCHES, GRADUAL_TRANCHE_MONTHS, INITIAL_SUPPLY,
    PER_SUB_ALLOCATION, PER_SUB_PRICE_USDC,
};

verus! {

/// One movement of funds for the host's ledger: `amount` of some asset from
/// the account `from` to the account `to`. Transfers out of a pool vault are
/// authorized by the pool's own signing capability, which only the host
/// holds; the engine merely describes the movement.
#[derive(Clone, Copy, Debug, PartialEq, Eq, Structural)]
pub struct TransferAction {
    pub from: AccountId,
    pub to: AccountId,
    pub amount: u64,
}

/// The identities `init_pool` reads: the authority creating the pool, the
/// two assets, the two vaults owned by the pool, and the authority's own
/// reward account that the initial funding is drawn from.
#[derive(Clone, Copy, Debug, PartialEq, Eq, Structural)]
pub struct InitPool {
    pub authority: AccountId,
    pub reward_mint: AccountId,
    pub usdc_mint: AccountId,
    pub reward_vault: AccountId,
    pub usdc_vault: AccountId,
    pub authority_reward_ata: AccountId,
}

/// The identities `subscribe` reads: the pool record's own address, the
/// subscribing user, and the user's payment account the fee is drawn from.
#[derive(Clone, Copy, Debug, PartialEq, Eq, Structural)]
pub struct Subscribe {
    pub pool: AccountId,
    pub user: AccountId,
    pub user_usdc_ata: AccountId,
}

/// The identities `claim` reads: the pool record's own address, the caller,
/// and the caller's reward account the payout goes to.
#[derive(Clone, Copy, Debug, PartialEq, Eq, Structural)]
pub struct Claim {
    pub pool: AccountId,
    pub user: AccountId,
    pub user_reward_ata: AccountId,
}

/// The identity `set_paused` reads: the caller claiming to be the authority.
#[derive(Clone, Copy, Debug, PartialEq, Eq, Structural)]
pub struct SetPaused {
    pub authority: AccountId,
}

/// The identities `admin_withdraw_usdc` reads: the caller claiming to be the
/// authority and the payment account the withdrawal goes to.
#[derive(Clone, Copy, Debug, PartialEq, Eq, Structural)]
pub struct AdminWithdrawUsdc {
    pub authority: AccountId,
    pub authority_usdc_ata: AccountId,
}

/// The identity `close_subscription` reads: the user the storage deposit is
/// refunded to.
#[derive(Clone, Copy, Debug, PartialEq, Eq, Structural)]
pub struct CloseSubscription {
    pub user: AccountId,
}

/// The pool record `init_pool` builds: every counter zero, the build-time
/// schedule configuration stored, unpaused.
pub open spec fn spec_init_pool(req: InitPool) -> GlobalPool {
    GlobalPool {
        authority: req.authority,
        reward_mint: req.reward_mint,
        reward_vault: req.reward_vault,
        usdc_mint: req.usdc_mint,
        usdc_vault: req.usdc_vault,
        total_reserved: 0,
        total_claimed: 0,
        next_sub_index: 0,
        paused: false,
        usdc_balance: 0,
        cliff_months: CLIFF_MONTHS,
        gradual_cliff_months: GRADUAL_CLIFF_MONTHS,
        gradual_tranche_months: GRADUAL_TRANCHE_MONTHS,
        gradual_tranches: GRADUAL_TRANCHES,
    }
}

/// Builds a fresh pool record, bound to the given assets and vaults, and
/// describes the initial funding transfer of the reward vault. Whether a
/// record may already exist at the derived address is the storage layer's
/// question: the host treats creation over an existing record as a
/// collision and rejects it, so re-initialization never resets a live pool.
pub fn init_pool(req: &InitPool) -> (r: (GlobalPool, Option<TransferAction>, PoolInitialized))
    ensures
        r.0 == spec_init_pool(*req),
        r.0.wf(),
        r.1 == (if INITIAL_SUPPLY > 0 {
            Some(
                TransferAction {
                    from: req.authority_reward_ata,
                    to: req.reward_vault,
                    amount: INITIAL_SUPPLY,
                },
            )
        } else {
            None
        }),
        r.2 == (PoolInitialized {
            authority: req.authority,
            reward_mint: req.reward_mint,
            usdc_mint: req.usdc_mint,
            initial_supply: INITIAL_SUPPLY,
            per_sub_allocation: PER_SUB_ALLOCATION,
            per_sub_price_usdc: PER_SUB_PRICE_USDC,
            cliff_months: CLIFF_MONTHS,
            gradual_cliff_months: GRADUAL_CLIFF_MONTHS,
            gradual_tranche_months: GRADUAL_TRANCHE_MONTHS,
            gradual_tranches: GRADUAL_TRANCHES,
        }),
{
    let pool = GlobalPool {
        authority: req.authority,
        reward_mint: req.reward_mint,
        reward_vault: req.reward_vault,
        usdc_mint: req.usdc_mint,
        usdc_vault: req.usdc_vault,
        total_reserved: 0,
        total_claimed: 0,
        next_sub_index: 0,
        paused: false,
        usdc_balance: 0,
        cliff_months: CLIFF_MONTHS,
        gradual_cliff_months: GRADUAL_CLIFF_MONTHS,
        gradual_tranche_months: GRADUAL_TRANCHE_MONTHS,
        gradual_tranches: GRADUAL_TRANCHES,
    };
    let funding = if INITIAL_SUPPLY > 0 {
        Some(
            TransferAction {
                from: req.authority_reward_ata,
                to: req.reward_vault,
                amount: INITIAL_SUPPLY,
            },
        )
    } else {
        None
    };
    let event = PoolInitialized {
        authority: req.authority,
        reward_mint: req.reward_mint,
        usdc_mint: req.usdc_mint,
        initial_supply: INITIAL_SUPPLY,
        per_sub_allocation: PER_SUB_ALLOCATION,
        per_sub_price_usdc: PER_SUB_PRICE_USDC,
        cliff_months: CLIFF_MONTHS,
        gradual_cliff_months: GRADUAL_CLIFF_MONTHS,
        gradual_tranche_months: GRADUAL_TRANCHE_MONTHS,
        gradual_tranches: GRADUAL_TRANCHES,
    };
    (pool, funding, event)
}

/// The informational timestamp at which a subscription created at `now`
/// first has anything claimable: the cliff instant for a cliff schedule, the
/// first tranche instant for a gradual one.
pub open spec fn spec_unlock_at(pool: GlobalPool, kind: SubKind, now: i64) -> int {
    match kind {
        SubKind::Cliff => now + spec_months_to_secs(pool.cliff_months),
        SubKind::Gradual => now + spec_months_to_secs(pool.gradual_cliff_months)
            + spec_months_to_secs(pool.gradual_tranche_months),
    }
}

/// What `subscribe` does to the pool, as a mathematical transition: either
/// the new pool record, the new subscription and the fee transfer, or the
/// error that rejects the call. The checks run in order: the pause gate; the
/// reward vault must cover everything reserved and claimed so far plus one
/// more allocation; the fee, unlock time and both counters must stay inside
/// 64 bits.
pub open spec fn spec_subscribe(
    pool: GlobalPool,
    req: Subscribe,
    reward_vault_balance: u64,
    kind: SubKind,
    now: i64,
) -> Result<(GlobalPool, Subscription, Option<TransferAction>), ErrorCode> {
    if pool.paused {
        Err(ErrorCode::Paused)
    } else if pool.total_reserved + pool.total_claimed > reward_vault_balance {
        Err(ErrorCode::MathOverflow)
    } else if reward_vault_balance - pool.total_reserved - pool.total_claimed
        < PER_SUB_ALLOCATION {
        Err(ErrorCode::InsufficientPoolBalance)
    } else if pool.usdc_balance + PER_SUB_PRICE_USDC > u64::MAX {
        Err(ErrorCode::MathOverflow)
    } else if spec_unlock_at(pool, kind, now) > i64::MAX {
        Err(ErrorCode::MathOverflow)
    } else if pool.total_reserved + PER_SUB_ALLOCATION > u64::MAX {
        Err(ErrorCode::MathOverflow)
    } else if pool.next_sub_index + 1 > u64::MAX {
        Err(ErrorCode::MathOverflow)
    } else {
        let sub = Subscription {
            pool: req.pool,
            user: req.user,
            amount: PER_SUB_ALLOCATION,
            unlock_at: spec_unlock_at(pool, kind, now) as i64,
            claimed: false,
            claimed_amount: 0,
            index: pool.next_sub_index,
            start_at: now,
            kind,
        };
        let new_pool = GlobalPool {
            total_reserved: (pool.total_reserved + PER_SUB_ALLOCATION) as u64,
            next_sub_index: (pool.next_sub_index + 1) as u64,
            usdc_balance: (pool.usdc_balance + PER_SUB_PRICE_USDC) as u64,
            ..pool
        };
        let fee = if PER_SUB_PRICE_USDC > 0 {
            Some(
                TransferAction {
                    from: req.user_usdc_ata,
                    to: pool.usdc_vault,
                    amount: PER_SUB_PRICE_USDC,
                },
            )
        } else {
            None
        };
        Ok((new_pool, sub, fee))
    }
}

/// Admits one paying subscriber: charges the fixed fee into the payment
/// vault, creates the subscription record under the next free index with the
/// fixed allocation, and reserves that allocation in the pool aggregate.
///
/// Success is owed exactly when the pool is not paused, the reward vault
/// balance covers `total_reserved + total_claimed + PER_SUB_ALLOCATION`, and
/// no counter or timestamp leaves the 64-bit range; `spec_subscribe` states
/// the error otherwise. On failure the pool is unchanged and no transfer is
/// described.
pub fn subscribe(
    pool: &mut GlobalPool,
    req: &Subscribe,
    reward_vault_balance: u64,
    kind: SubKind,
    now: i64,
) -> (r: Result<(Subscription, Option<TransferAction>, Subscribed), ErrorCode>)
    requires
        old(pool).wf(),
    ensures
        final(pool).wf(),
        ({
            let m = spec_subscribe(*old(pool), *req, reward_vault_balance, kind, now);
            match m {
                Ok((new_pool, sub, fee)) => {
                    &&& r matches Ok(out)
                    &&& *final(pool) == new_pool
                    &&& out.0 == sub
                    &&& out.1 == fee
                    &&& out.2 == (Subscribed {
                        user: req.user,
                        amount: PER_SUB_ALLOCATION,
                        unlock_at: sub.unlock_at,
                        sub_index: sub.index,
                        kind,
                        price_usdc: PER_SUB_PRICE_USDC,
                    })
                },
                Err(e) => {
                    &&& r matches Err(actual) && actual == e
                    &&& *final(pool) == *old(pool)
                },
            }
        }),
        r is Ok ==> final(pool).reserved_plus_claimed() == old(pool).reserved_plus_claimed()
            + PER_SUB_ALLOCATION,
        r is Err ==> *final(pool) == *old(pool),
        r matches Ok(out) ==> out.0.wf(),
{
    if pool.paused {
        return Err(ErrorCode::Paused);
    }
    let after_reserved = match reward_vault_balance.checked_sub(pool.total_reserved) {
        Some(x) => x,
        None => {
            return Err(ErrorCode::MathOverflow);
        },
    };
    let available = match after_reserved.checked_sub(pool.total_claimed) {
        Some(x) => x,
        None => {
            return Err(ErrorCode::MathOverflow);
        },
    };
    if available < PER_SUB_ALLOCATION {
        return Err(ErrorCode::InsufficientPoolBalance);
    }
    let new_usdc_balance = if PER_SUB_PRICE_USDC > 0 {
        match pool.usdc_balance.checked_add(PER_SUB_PRICE_USDC) {
            Some(b) => b,
            None => {
                return Err(ErrorCode::MathOverflow);
            },
        }
    } else {
        pool.usdc_balance
    };
    let unlock_at = match kind {
        SubKind::Cliff => {
            match now.checked_add(months_to_secs(pool.cliff_months)) {
                Some(t) => t,
                None => {
                    return Err(ErrorCode::MathOverflow);
                },
            }
        },
        SubKind::Gradual => {
            let lock_secs = months_to_secs(pool.gradual_cliff_months) + months_to_secs(
                pool.gradual_tranche_months,
            );
            match now.checked_add(lock_secs) {
                Some(t) => t,
                None => {
                    return Err(ErrorCode::MathOverflow);
                },
            }
        },
    };
    let new_reserved = match pool.total_reserved.checked_add(PER_SUB_ALLOCATION) {
        Some(x) => x,
        None => {
            return Err(ErrorCode::MathOverflow);
        },
    };
    let new_index = match pool.next_sub_index.checked_add(1) {
        Some(x) => x,
        None => {
            return Err(ErrorCode::MathOverflow);
        },
    };
    let sub = Subscription {
        pool: req.pool,
        user: req.user,
        amount: PER_SUB_ALLOCATION,
        unlock_at,
        claimed: false,
        claimed_amount: 0,
        index: pool.next_sub_index,
        start_at: now,
        kind,
    };
    let fee = if PER_SUB_PRICE_USDC > 0 {
        Some(
            TransferAction {
                from: req.user_usdc_ata,
                to: pool.usdc_vault,
                amount: PER_SUB_PRICE_USDC,
            },
        )
    } else {
        None
    };
    let event = Subscribed {
        user: req.user,
        amount: PER_SUB_ALLOCATION,
        unlock_at,
        sub_index: pool.next_sub_index,
        kind,
        price_usdc: PER_SUB_PRICE_USDC,
    };
    pool.total_reserved = new_reserved;
    pool.next_sub_index = new_index;
    pool.usdc_balance = new_usdc_balance;
    Ok((sub, fee, event))
}

/// What `claim` does, as a mathematical transition: either the new pool
/// record, the new subscription record and the amount paid out, or the error
/// that rejects the call. The checks run in order: the pause gate; the
/// caller must be the subscription's owner and the subscription must belong
/// to this pool; the calculator must find something vested beyond what was
/// already claimed; and the aggregate counters must absorb the payout inside
/// 64 bits.
pub open spec fn spec_claim(pool: GlobalPool, s: Subscription, req: Claim, now: i64) -> Result<
    (GlobalPool, Subscription, u64),
    ErrorCode,
>
    recommends
        pool.wf(),
{
    if pool.paused {
        Err(ErrorCode::Paused)
    } else if req.user != s.user {
        Err(ErrorCode::AccountMismatch)
    } else if s.pool != req.pool {
        Err(ErrorCode::AccountMismatch)
    } else {
        match spec_vested_amount(pool, s, now as int) {
            Err(e) => Err(e),
            Ok(vested) => {
                if vested <= s.claimed_amount {
                    Err(ErrorCode::NothingToClaim)
                } else {
                    let delta = vested - s.claimed_amount;
                    if pool.total_reserved < delta {
                        Err(ErrorCode::MathOverflow)
                    } else if pool.total_claimed + delta > u64::MAX {
                        Err(ErrorCode::MathOverflow)
                    } else {
                        let new_sub = Subscription {
                            claimed_amount: vested,
                            claimed: s.claimed || vested >= s.amount,
                            ..s
                        };
                        let new_pool = GlobalPool {
                            total_reserved: (pool.total_reserved - delta) as u64,
                            total_claimed: (pool.total_claimed + delta) as u64,
                            ..pool
                        };
                        Ok((new_pool, new_sub, delta as u64))
                    }
                }
            },
        }
    }
}

/// Pays out everything newly vested on one subscription: raises the record's
/// claimed amount to the vested amount, moves the difference from
/// `total_reserved` to `total_claimed`, and describes the payout from the
/// reward vault to the caller.
///
/// Success is owed exactly when the pool is not paused, the caller owns the
/// subscription, the subscription belongs to this pool, the calculator finds
/// an amount strictly beyond what was already claimed, and the counters
/// absorb the difference; `spec_claim` states the error otherwise. Claiming
/// never changes `total_reserved + total_claimed`, and a failed call changes
/// nothing at all.
pub fn claim(pool: &mut GlobalPool, s: &mut Subscription, req: &Claim, now: i64) -> (r: Result<
    (TransferAction, Claimed),
    ErrorCode,
>)
    requires
        old(pool).wf(),
        old(s).wf(),
    ensures
        final(pool).wf(),
        final(s).wf(),
        ({
            let m = spec_claim(*old(pool), *old(s), *req, now);
            match m {
                Ok((new_pool, new_sub, delta)) => {
                    &&& r matches Ok(out)
                    &&& *final(pool) == new_pool
                    &&& *final(s) == new_sub
                    &&& out.0 == (TransferAction {
                        from: old(pool).reward_vault,
                        to: req.user_reward_ata,
                        amount: delta,
                    })
                    &&& out.1 == (Claimed { user: old(s).user, amount: delta })
                },
                Err(e) => {
                    &&& r matches Err(actual) && actual == e
                    &&& *final(pool) == *old(pool)
                    &&& *final(s) == *old(s)
                },
            }
        }),
        final(pool).reserved_plus_claimed() == old(pool).reserved_plus_claimed(),
        final(s).claimed_amount >= old(s).claimed_amount,
        r is Err ==> *final(pool) == *old(pool) && *final(s) == *old(s),
{
    if pool.paused {
        return Err(ErrorCode::Paused);
    }
    if !(req.user == s.user) {
        return Err(ErrorCode::AccountMismatch);
    }
    if !(s.pool == req.pool) {
        return Err(ErrorCode::AccountMismatch);
    }
    let vested = match vested_amount(pool, s, now) {
        Ok(v) => v,
        Err(e) => {
            return Err(e);
        },
    };
    if vested <= s.claimed_amount {
        return Err(ErrorCode::NothingToClaim);
    }
    let delta = vested - s.claimed_amount;
    let new_reserved = match pool.total_reserved.checked_sub(delta) {
        Some(x) => x,
        None => {
            return Err(ErrorCode::MathOverflow);
        },
    };
    let new_total_claimed = match pool.total_claimed.checked_add(delta) {
        Some(x) => x,
        None => {
            return Err(ErrorCode::MathOverflow);
        },
    };
    proof {
        lemma_vested_le_amount(*pool, *s, now as int);
    }
    s.claimed_amount = vested;
    if s.claimed_amount >= s.amount {
        s.claimed = true;
    }
    pool.total_reserved = new_reserved;
    pool.total_claimed = new_total_claimed;
    let payout = TransferAction { from: pool.reward_vault, to: req.user_reward_ata, amount: delta };
    let event = Claimed { user: s.user, amount: delta };
    Ok((payout, event))
}

/// Gates `subscribe` and `claim`. Only the pool authority may toggle it; any
/// other caller is rejected with `Unauthorized` and changes nothing.
pub fn set_paused(pool: &mut GlobalPool, req: &SetPaused, paused: bool) -> (r: Result<
    PauseToggled,
    ErrorCode,
>)
    ensures
        req.authority == old(pool).authority ==> {
            &&& r == Ok::<PauseToggled, ErrorCode>(PauseToggled { paused })
            &&& *final(pool) == (GlobalPool { paused, ..*old(pool) })
        },
        req.authority != old(pool).authority ==> {
            &&& r == Err::<PauseToggled, ErrorCode>(ErrorCode::Unauthorized)
            &&& *final(pool) == *old(pool)
        },
        old(pool).wf() ==> final(pool).wf(),
{
    if !(pool.authority == req.authority) {
        return Err(ErrorCode::Unauthorized);
    }
    pool.paused = paused;
    Ok(PauseToggled { paused })
}

/// What `admin_withdraw_usdc` does, as a mathematical transition. The caller
/// must be the authority (checked first, as the host's account constraints
/// did), the amount must be positive, and no more can leave than was ever
/// collected net of earlier withdrawals.
pub open spec fn spec_admin_withdraw_usdc(
    pool: GlobalPool,
    req: AdminWithdrawUsdc,
    amount: u64,
) -> Result<(GlobalPool, TransferAction), ErrorCode> {
    if req.authority != pool.authority {
        Err(ErrorCode::Unauthorized)
    } else if amount == 0 {
        Err(ErrorCode::ZeroAmount)
    } else if pool.usdc_balance < amount {
        Err(ErrorCode::MathOverflow)
    } else {
        let new_pool = GlobalPool { usdc_balance: (pool.usdc_balance - amount) as u64, ..pool };
        let payout = TransferAction {
            from: pool.usdc_vault,
            to: req.authority_usdc_ata,
            amount,
        };
        Ok((new_pool, payout))
    }
}

/// Withdraws collected fees from the payment vault to the authority. The
/// collected-fee counter can never go below zero: a withdrawal beyond it is
/// rejected as `MathOverflow` before any transfer is described, and a failed
/// call changes nothing.
pub fn admin_withdraw_usdc(pool: &mut GlobalPool, req: &AdminWithdrawUsdc, amount: u64) -> (r:
    Result<(TransferAction, AdminUsdcWithdrawn), ErrorCode>)
    ensures
        ({
            let m = spec_admin_withdraw_usdc(*old(pool), *req, amount);
            match m {
                Ok((new_pool, payout)) => {
                    &&& r matches Ok(out)
                    &&& *final(pool) == new_pool
                    &&& out.0 == payout
                    &&& out.1 == (AdminUsdcWithdrawn { to: req.authority, amount })
                },
                Err(e) => {
                    &&& r matches Err(actual) && actual == e
                    &&& *final(pool) == *old(pool)
                },
            }
        }),
        final(pool).reserved_plus_claimed() == old(pool).reserved_plus_claimed(),
        old(pool).wf() ==> final(pool).wf(),
{
    if !(pool.authority == req.authority) {
        return Err(ErrorCode::Unauthorized);
    }
    if amount == 0 {
        return Err(ErrorCode::ZeroAmount);
    }
    let new_balance = match pool.usdc_balance.checked_sub(amount) {
        Some(x) => x,
        None => {
            return Err(ErrorCode::MathOverflow);
        },
    };
    pool.usdc_balance = new_balance;
    let payout = TransferAction { from: pool.usdc_vault, to: req.authority_usdc_ata, amount };
    let event = AdminUsdcWithdrawn { to: req.authority, amount };
    Ok((payout, event))
}

/// Gate for reclaiming a subscription's storage: allowed exactly once the
/// record is fully claimed. On success the host destroys the record and
/// refunds its storage deposit to `req.user`; the pool aggregates were
/// already settled by the last claim, so nothing else changes.
pub fn close_subscription(s: &Subscription, req: &CloseSubscription) -> (r: Result<(), ErrorCode>)
    ensures
        s.claimed ==> r is Ok,
        !s.claimed ==> r == Err::<(), ErrorCode>(ErrorCode::NotYetFullyClaimed),
{
    if s.claimed {
        Ok(())
    } else {
        Err(ErrorCode::NotYetFullyClaimed)
    }
}

} // verus!
