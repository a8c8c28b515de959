//! The engine's laws: properties that hold of every run, proved once and
//! for all rather than sampled by tests.

use vstd::arithmetic::div_mod::{
    lemma_div_by_multiple, lemma_div_by_self, lemma_div_is_ordered,
    lemma_div_multiples_vanish_fancy, lemma_div_pos_is_pos, lemma_hoist_over_denominator,
};
use vstd::arithmetic::mul::{
    lemma_mul_basics, lemma_mul_inequality, lemma_mul_is_commutative,
    lemma_mul_is_distributive_add, lemma_mul_nonnegative,
};
use vstd::prelude::*;

use crate::errors::ErrorCode;
use crate::ops::{spec_claim, spec_subscribe, Claim, Subscribe};
use crate::schedule::{
    cliff_time, first_tranche_time, spec_vested_amount, tranche_seconds, tranches_elapsed,
    SubKind,
};
use crate::state::{GlobalPool, Subscription};

verus! {

/// A vested result read as a plain amount: how much is unlocked, zero while
/// still locked.
pub open spec fn vested_or_zero(r: Result<u64, ErrorCode>) -> int {
    match r {
        Ok(v) => v as int,
        Err(_) => 0,
    }
}

/// A cliff subscription is all or nothing: strictly before its cliff instant
/// the calculator rejects it as still locked, and from that instant on it
/// returns exactly the whole allocation. Only a cliff instant beyond the
/// 64-bit clock is excluded.
pub proof fn lemma_cliff_all_or_nothing(pool: GlobalPool, s: Subscription, now: int)
    requires
        pool.wf(),
        s.kind is Cliff,
        cliff_time(pool, s) <= i64::MAX,
    ensures
        now < cliff_time(pool, s) ==> spec_vested_amount(pool, s, now) == Err::<u64, ErrorCode>(
            ErrorCode::StillLocked,
        ),
        now >= cliff_time(pool, s) ==> spec_vested_amount(pool, s, now) == Ok::<u64, ErrorCode>(
            s.amount,
        ),
{
}

/// The floored tranche payout `amount * k / n` stays between zero and the
/// whole allocation for every tranche count reached.
proof fn lemma_payout_bounds(amount: u64, k: int, n: int)
    requires
        1 <= k <= n,
    ensures
        0 <= amount * k / n <= amount,
{
    lemma_mul_nonnegative(amount as int, k);
    lemma_div_pos_is_pos(amount * k, n);
    lemma_mul_inequality(k, n, amount as int);
    lemma_mul_is_commutative(k, amount as int);
    lemma_mul_is_commutative(n, amount as int);
    lemma_div_is_ordered(amount * k, amount * n, n);
    lemma_div_by_multiple(amount as int, n);
}

/// A gradual subscription vests as a non-decreasing function of time: at no
/// later instant is less unlocked, a still-locked query counting as zero.
/// Inputs on which the schedule arithmetic itself overflows 64 bits are
/// excluded; within them every query succeeds or is still locked.
pub proof fn lemma_gradual_non_decreasing(
    pool: GlobalPool,
    s: Subscription,
    now1: int,
    now2: int,
)
    requires
        pool.wf(),
        s.kind is Gradual,
        now1 <= now2,
        first_tranche_time(pool, s) <= i64::MAX,
        now2 - first_tranche_time(pool, s) <= i64::MAX,
        s.amount * pool.gradual_tranches <= u64::MAX,
    ensures
        vested_or_zero(spec_vested_amount(pool, s, now1)) <= vested_or_zero(
            spec_vested_amount(pool, s, now2),
        ),
{
    let first = first_tranche_time(pool, s);
    let ts = tranche_seconds(pool);
    let n = pool.gradual_tranches as int;
    if now2 >= first {
        let k2 = tranches_elapsed(pool, s, now2);
        lemma_div_pos_is_pos(now2 - first, ts);
        lemma_mul_inequality(k2, n, s.amount as int);
        lemma_mul_is_commutative(k2, s.amount as int);
        lemma_mul_is_commutative(n, s.amount as int);
        lemma_payout_bounds(s.amount, k2, n);
        if now1 >= first {
            let k1 = tranches_elapsed(pool, s, now1);
            lemma_div_pos_is_pos(now1 - first, ts);
            lemma_div_is_ordered(now1 - first, now2 - first, ts);
            lemma_mul_inequality(k1, n, s.amount as int);
            lemma_mul_is_commutative(k1, s.amount as int);
            lemma_payout_bounds(s.amount, k1, n);
            lemma_mul_inequality(k1, k2, s.amount as int);
            lemma_div_is_ordered(s.amount * k1, s.amount * k2, n);
        }
    }
}

/// Between the first tranche instant and the last, a gradual subscription
/// sits on plateaus: throughout the `j`-th tranche window the calculator
/// returns exactly `amount * j / n`, and from the start of the last window
/// on it never moves again.
pub proof fn lemma_gradual_plateau(pool: GlobalPool, s: Subscription, now: int, j: int)
    requires
        pool.wf(),
        s.kind is Gradual,
        first_tranche_time(pool, s) <= i64::MAX,
        now - first_tranche_time(pool, s) <= i64::MAX,
        s.amount * pool.gradual_tranches <= u64::MAX,
        1 <= j <= pool.gradual_tranches,
        now >= first_tranche_time(pool, s) + (j - 1) * tranche_seconds(pool),
        j < pool.gradual_tranches ==> now < first_tranche_time(pool, s) + j * tranche_seconds(
            pool,
        ),
    ensures
        spec_vested_amount(pool, s, now) == Ok::<u64, ErrorCode>(
            (s.amount * j / (pool.gradual_tranches as int)) as u64,
        ),
{
    let first = first_tranche_time(pool, s);
    let ts = tranche_seconds(pool);
    let n = pool.gradual_tranches as int;
    let q = (now - first) / ts;
    lemma_mul_nonnegative(j - 1, ts);
    lemma_mul_is_commutative(j - 1, ts);
    lemma_mul_is_commutative(j, ts);
    if j < n {
        let b = now - first - ts * (j - 1);
        assert(ts * j == ts * (j - 1) + ts) by {
            lemma_mul_is_distributive_add(ts, j - 1, 1);
            lemma_mul_basics(ts);
        }
        assert(0 <= b < ts);
        lemma_div_multiples_vanish_fancy(j - 1, b, ts);
        assert(q == j - 1);
    } else {
        assert(ts * (n - 1) <= now - first);
        lemma_div_is_ordered(ts * (n - 1), now - first, ts);
        assert(ts * (n - 1) == (n - 1) * ts) by {
            lemma_mul_is_commutative(ts, n - 1);
        }
        lemma_div_by_multiple(n - 1, ts);
        assert(q >= n - 1);
    }
    let k = tranches_elapsed(pool, s, now);
    assert(k == j);
    lemma_mul_inequality(j, n, s.amount as int);
    lemma_mul_is_commutative(j, s.amount as int);
    lemma_mul_is_commutative(n, s.amount as int);
    lemma_payout_bounds(s.amount, j, n);
}

/// The plateaus of a gradual schedule, `amount * j / n` for the `j`-th
/// tranche, are positive and strictly increasing up to the whole allocation,
/// so a schedule of `n` tranches takes exactly `n` distinct positive values.
/// This needs `amount >= n`: an allocation smaller than its tranche count
/// floors some consecutive plateaus onto the same value.
pub proof fn lemma_gradual_plateaus_distinct(amount: u64, n: u8, j: int)
    requires
        n >= 1,
        amount >= n,
        1 <= j <= n,
    ensures
        amount * j / (n as int) >= 1,
        j == n ==> amount * j / (n as int) == amount,
        j < n ==> amount * j / (n as int) < amount * (j + 1) / (n as int),
{
    let a = amount as int;
    let nn = n as int;
    lemma_mul_basics(a);
    lemma_mul_inequality(1, j, a);
    lemma_mul_is_commutative(1, a);
    lemma_mul_is_commutative(j, a);
    assert(a <= a * j);
    lemma_div_is_ordered(nn, a * j, nn);
    lemma_div_by_self(nn);
    assert(a * j / nn >= 1);
    if j == n {
        lemma_mul_is_commutative(a, nn);
        lemma_div_by_multiple(a, nn);
        assert(a * nn / nn == a);
    }
    if j < n {
        assert(a * (j + 1) == a * j + a) by {
            lemma_mul_is_distributive_add(a, j, 1);
        }
        lemma_hoist_over_denominator(a * j, 1, n as nat);
        assert(a * j / nn + 1 == (a * j + 1 * nn) / nn);
        assert(1 * nn == nn) by {
            lemma_mul_basics(nn);
        }
        lemma_div_is_ordered(a * j + nn, a * (j + 1), nn);
        assert(a * j / nn + 1 <= a * (j + 1) / nn);
    }
}

/// Claiming twice at the same instant pays only once: after a successful
/// claim, an immediate second claim on the records it produced is rejected
/// with `NothingToClaim` — and a rejected claim, by `claim`'s contract,
/// leaves the subscription and both pool counters unchanged.
pub proof fn lemma_claim_idempotent(pool: GlobalPool, s: Subscription, req: Claim, now: i64)
    requires
        pool.wf(),
        spec_claim(pool, s, req, now) is Ok,
    ensures
        ({
            let next = spec_claim(pool, s, req, now)->Ok_0;
            spec_claim(next.0, next.1, req, now) == Err::<
                (GlobalPool, Subscription, u64),
                ErrorCode,
            >(ErrorCode::NothingToClaim)
        }),
{
    let next = spec_claim(pool, s, req, now)->Ok_0;
    let p1 = next.0;
    let s1 = next.1;
    assert(spec_vested_amount(p1, s1, now as int) == spec_vested_amount(pool, s, now as int));
}

/// One step of the conserved pair: what a subscription or a claim does to
/// `(total_reserved, total_claimed)`. A subscription reserves its allocation;
/// a claim only moves its payout from reserved to claimed.
#[derive(Clone, Copy, Debug, PartialEq, Eq, Structural)]
pub enum PoolStep {
    Subscribe { allocation: u64 },
    Claim { delta: u64 },
}

/// The conserved pair after one step.
pub open spec fn apply_step(rc: (int, int), step: PoolStep) -> (int, int) {
    match step {
        PoolStep::Subscribe { allocation } => (rc.0 + allocation, rc.1),
        PoolStep::Claim { delta } => (rc.0 - delta, rc.1 + delta),
    }
}

/// The conserved pair after a whole run of steps.
pub open spec fn apply_steps(rc: (int, int), steps: Seq<PoolStep>) -> (int, int)
    decreases steps.len(),
{
    if steps.len() == 0 {
        rc
    } else {
        apply_step(apply_steps(rc, steps.drop_last()), steps.last())
    }
}

/// Everything the subscriptions of a run reserved, all claims ignored.
pub open spec fn subscribed_total(steps: Seq<PoolStep>) -> int
    decreases steps.len(),
{
    if steps.len() == 0 {
        0
    } else {
        subscribed_total(steps.drop_last()) + (match steps.last() {
            PoolStep::Subscribe { allocation } => allocation as int,
            PoolStep::Claim { .. } => 0,
        })
    }
}

/// A successful `subscribe` performs exactly a `Subscribe` step on the
/// conserved pair: it reserves the new subscription's allocation and touches
/// nothing claimed.
pub proof fn lemma_subscribe_is_step(
    pool: GlobalPool,
    req: Subscribe,
    reward_vault_balance: u64,
    kind: SubKind,
    now: i64,
)
    requires
        spec_subscribe(pool, req, reward_vault_balance, kind, now) is Ok,
    ensures
        ({
            let next = spec_subscribe(pool, req, reward_vault_balance, kind, now)->Ok_0;
            (next.0.total_reserved as int, next.0.total_claimed as int) == apply_step(
                (pool.total_reserved as int, pool.total_claimed as int),
                PoolStep::Subscribe { allocation: next.1.amount },
            )
        }),
{
}

/// A successful `claim` performs exactly a `Claim` step on the conserved
/// pair: its payout moves from reserved to claimed and the sum stands still.
pub proof fn lemma_claim_is_step(pool: GlobalPool, s: Subscription, req: Claim, now: i64)
    requires
        spec_claim(pool, s, req, now) is Ok,
    ensures
        ({
            let next = spec_claim(pool, s, req, now)->Ok_0;
            (next.0.total_reserved as int, next.0.total_claimed as int) == apply_step(
                (pool.total_reserved as int, pool.total_claimed as int),
                PoolStep::Claim { delta: next.2 },
            )
        }),
{
}

/// Conservation: over any run of subscriptions and claims,
/// `total_reserved + total_claimed` ends at its starting value plus exactly
/// the allocations of the subscriptions created — it grows only by
/// subscribing and is invariant under claiming. `subscribe` and `claim`
/// perform precisely these steps on the pool's counters (their contracts
/// state the same sums on `old` and `final`), so a pool created by
/// `init_pool` — where both counters start at zero — always shows
/// `total_reserved + total_claimed` equal to the sum of all allocations ever
/// created.
pub proof fn lemma_conservation(rc: (int, int), steps: Seq<PoolStep>)
    ensures
        apply_steps(rc, steps).0 + apply_steps(rc, steps).1 == rc.0 + rc.1 + subscribed_total(
            steps,
        ),
    decreases steps.len(),
{
    if steps.len() > 0 {
        lemma_conservation(rc, steps.drop_last());
    }
}

} // verus!
