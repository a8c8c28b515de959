//! The vesting calculator: how much of an allocation is unlocked at a time.

use vstd::arithmetic::div_mod::{
    lemma_div_by_multiple, lemma_div_is_ordered, lemma_div_nonincreasing, lemma_div_pos_is_pos,
};
use vstd::arithmetic::mul::{
    lemma_mul_inequality, lemma_mul_is_commutative, lemma_mul_nonnegative,
};
use vstd::prelude::*;

use crate::errors::ErrorCode;
use crate::state::{GlobalPool, Subscription};
use crate::SECS_PER_MONTH;

verus! {

/// The two vesting styles: everything at one instant after a cliff, or equal
/// monthly tranches after an initial lock.
#[derive(Clone, Copy, Debug, Hash, PartialEq, Eq, Structural)]
pub enum SubKind {
    Cliff,
    Gradual,
}

impl SubKind {
    /// The numeric code under which a schedule kind is stored.
    pub open spec fn spec_code(self) -> u8 {
        match self {
            SubKind::Cliff => 0,
            SubKind::Gradual => 1,
        }
    }

    /// The numeric code under which this schedule kind is stored.
    pub fn code(self) -> (c: u8)
        ensures
            c == self.spec_code(),
    {
        match self {
            SubKind::Cliff => 0,
            SubKind::Gradual => 1,
        }
    }

    /// Reads a stored schedule code back into the closed sum type. Any code
    /// that names no variant is data corruption and is rejected rather than
    /// read as some default.
    pub fn from_code(c: u8) -> (r: Result<SubKind, ErrorCode>)
        ensures
            c == 0 ==> r == Ok::<SubKind, ErrorCode>(SubKind::Cliff),
            c == 1 ==> r == Ok::<SubKind, ErrorCode>(SubKind::Gradual),
            c >= 2 ==> r == Err::<SubKind, ErrorCode>(ErrorCode::InvalidConfig),
    {
        match c {
            0 => Ok(SubKind::Cliff),
            1 => Ok(SubKind::Gradual),
            _ => Err(ErrorCode::InvalidConfig),
        }
    }
}

/// A whole number of schedule months, in seconds.
pub open spec fn spec_months_to_secs(m: u8) -> int {
    m * SECS_PER_MONTH
}

/// A whole number of schedule months, in seconds.
pub fn months_to_secs(m: u8) -> (s: i64)
    ensures
        s == spec_months_to_secs(m),
{
    (m as i64) * SECS_PER_MONTH
}

/// The single instant at which a cliff subscription unlocks in full.
pub open spec fn cliff_time(pool: GlobalPool, s: Subscription) -> int {
    s.start_at + spec_months_to_secs(pool.cliff_months)
}

/// The instant at which the first tranche of a gradual subscription unlocks:
/// the initial lock followed by one tranche interval.
pub open spec fn first_tranche_time(pool: GlobalPool, s: Subscription) -> int {
    s.start_at + spec_months_to_secs(pool.gradual_cliff_months)
        + spec_months_to_secs(pool.gradual_tranche_months)
}

/// Seconds between two tranche unlocks.
pub open spec fn tranche_seconds(pool: GlobalPool) -> int {
    spec_months_to_secs(pool.gradual_tranche_months)
}

/// How many tranches have unlocked at `now`: one at the first tranche
/// instant, one more per full interval since, never more than the schedule
/// has.
pub open spec fn tranches_elapsed(pool: GlobalPool, s: Subscription, now: int) -> int
    recommends
        pool.wf(),
        now >= first_tranche_time(pool, s),
{
    let k = (now - first_tranche_time(pool, s)) / tranche_seconds(pool) + 1;
    if k <= pool.gradual_tranches { k } else { pool.gradual_tranches as int }
}

/// What `vested_amount` returns, as a mathematical function of the schedule
/// configuration, the subscription and the time. The gradual payout rounds
/// down per tranche by design: when the allocation is not an exact multiple
/// of the tranche count the fraction lost to flooring is never reconciled.
pub open spec fn spec_vested_amount(pool: GlobalPool, s: Subscription, now: int) -> Result<
    u64,
    ErrorCode,
>
    recommends
        pool.wf(),
{
    match s.kind {
        SubKind::Cliff => {
            if cliff_time(pool, s) > i64::MAX {
                Err(ErrorCode::MathOverflow)
            } else if now >= cliff_time(pool, s) {
                Ok(s.amount)
            } else {
                Err(ErrorCode::StillLocked)
            }
        },
        SubKind::Gradual => {
            let first = first_tranche_time(pool, s);
            if first > i64::MAX {
                Err(ErrorCode::MathOverflow)
            } else if now < first {
                Err(ErrorCode::StillLocked)
            } else if now - first > i64::MAX {
                Err(ErrorCode::MathOverflow)
            } else {
                let k = tranches_elapsed(pool, s, now);
                if s.amount * k > u64::MAX {
                    Err(ErrorCode::MathOverflow)
                } else {
                    Ok((s.amount * k / (pool.gradual_tranches as int)) as u64)
                }
            }
        },
    }
}

/// Whatever the calculator finds vested never exceeds the allocation: a
/// cliff unlock is the allocation itself, and a gradual payout is a floored
/// fraction `amount * k / n` with `k` capped at the tranche count `n`.
pub proof fn lemma_vested_le_amount(pool: GlobalPool, s: Subscription, now: int)
    requires
        pool.wf(),
    ensures
        spec_vested_amount(pool, s, now) matches Ok(v) ==> v <= s.amount,
{
    match s.kind {
        SubKind::Cliff => {},
        SubKind::Gradual => {
            let first = first_tranche_time(pool, s);
            if first <= i64::MAX && first <= now && now - first <= i64::MAX {
                let n = pool.gradual_tranches as int;
                let k = tranches_elapsed(pool, s, now);
                if s.amount * k <= u64::MAX {
                    lemma_div_pos_is_pos(now - first, tranche_seconds(pool));
                    assert(1 <= k <= n);
                    lemma_mul_nonnegative(s.amount as int, k);
                    lemma_div_pos_is_pos(s.amount * k, n);
                    lemma_mul_inequality(k, n, s.amount as int);
                    lemma_mul_is_commutative(k, s.amount as int);
                    lemma_mul_is_commutative(n, s.amount as int);
                    lemma_div_is_ordered(s.amount * k, s.amount * n, n);
                    lemma_div_by_multiple(s.amount as int, n);
                    assert(s.amount * k / n <= s.amount);
                }
            }
        },
    }
}

/// The unlocked share of a subscription's allocation at `now`.
///
/// A cliff subscription is locked in full strictly before its cliff instant
/// and unlocked in full from it on. A gradual subscription is locked strictly
/// before its first tranche instant; from it on, each elapsed tranche unlocks
/// a further equal (floored) share, up to the whole allocation once all
/// tranches have passed. Schedule arithmetic that leaves the 64-bit range
/// fails with `MathOverflow` instead of wrapping.
pub fn vested_amount(pool: &GlobalPool, s: &Subscription, now: i64) -> (r: Result<u64, ErrorCode>)
    requires
        pool.wf(),
    ensures
        r == spec_vested_amount(*pool, *s, now as int),
{
    match s.kind {
        SubKind::Cliff => {
            match s.start_at.checked_add(months_to_secs(pool.cliff_months)) {
                Some(cliff) => {
                    if now >= cliff {
                        Ok(s.amount)
                    } else {
                        Err(ErrorCode::StillLocked)
                    }
                },
                None => Err(ErrorCode::MathOverflow),
            }
        },
        SubKind::Gradual => {
            let lock_secs = months_to_secs(pool.gradual_cliff_months);
            let tranche_secs = months_to_secs(pool.gradual_tranche_months);
            match s.start_at.checked_add(lock_secs + tranche_secs) {
                Some(first) => {
                    if now < first {
                        Err(ErrorCode::StillLocked)
                    } else {
                        match now.checked_sub(first) {
                            Some(elapsed) => {
                                let quotient: u64 = (elapsed as u64) / (tranche_secs as u64);
                                proof {
                                    lemma_div_nonincreasing(elapsed as int, tranche_secs as int);
                                }
                                let tranches: u64 = quotient + 1;
                                let cap: u64 = pool.gradual_tranches as u64;
                                let vested_tranches: u64 = if tranches < cap {
                                    tranches
                                } else {
                                    cap
                                };
                                match s.amount.checked_mul(vested_tranches) {
                                    Some(product) => {
                                        proof {
                                            lemma_div_nonincreasing(product as int, cap as int);
                                        }
                                        Ok(product / cap)
                                    },
                                    None => Err(ErrorCode::MathOverflow),
                                }
                            },
                            None => Err(ErrorCode::MathOverflow),
                        }
                    }
                },
                None => Err(ErrorCode::MathOverflow),
            }
        },
    }
}

} // verus!
