//! The five pool operations, end to end on concrete runs.

use rewards_pool_real_token::account::AccountId;
use rewards_pool_real_token::errors::ErrorCode;
use rewards_pool_real_token::events::{Claimed, PauseToggled, Subscribed};
use rewards_pool_real_token::ops::{
    admin_withdraw_usdc, claim, close_subscription, init_pool, set_paused, subscribe,
    AdminWithdrawUsdc, Claim, CloseSubscription, InitPool, SetPaused, Subscribe, TransferAction,
};
use rewards_pool_real_token::schedule::SubKind;
use rewards_pool_real_token::state::GlobalPool;
use rewards_pool_real_token::{
    INITIAL_SUPPLY, PER_SUB_ALLOCATION, PER_SUB_PRICE_USDC, SECS_PER_MONTH,
};

const AUTHORITY: AccountId = AccountId(1);
const REWARD_VAULT: AccountId = AccountId(4);
const USDC_VAULT: AccountId = AccountId(5);
const POOL_KEY: AccountId = AccountId(100);
const USER: AccountId = AccountId(11);
const USER_USDC: AccountId = AccountId(12);
const USER_REWARD: AccountId = AccountId(13);

fn fresh_pool() -> GlobalPool {
    let (pool, funding, event) = init_pool(&InitPool {
        authority: AUTHORITY,
        reward_mint: AccountId(2),
        usdc_mint: AccountId(3),
        reward_vault: REWARD_VAULT,
        usdc_vault: USDC_VAULT,
        authority_reward_ata: AccountId(6),
    });
    assert_eq!(
        funding,
        Some(TransferAction { from: AccountId(6), to: REWARD_VAULT, amount: INITIAL_SUPPLY })
    );
    assert_eq!(event.initial_supply, INITIAL_SUPPLY);
    assert_eq!(event.per_sub_allocation, PER_SUB_ALLOCATION);
    pool
}

fn sub_req() -> Subscribe {
    Subscribe { pool: POOL_KEY, user: USER, user_usdc_ata: USER_USDC }
}

fn claim_req() -> Claim {
    Claim { pool: POOL_KEY, user: USER, user_reward_ata: USER_REWARD }
}

#[test]
fn init_pool_zeroes_all_counters() {
    let pool = fresh_pool();
    assert_eq!(pool.total_reserved, 0);
    assert_eq!(pool.total_claimed, 0);
    assert_eq!(pool.next_sub_index, 0);
    assert_eq!(pool.usdc_balance, 0);
    assert!(!pool.paused);
    assert_eq!(pool.cliff_months, 6);
    assert_eq!(pool.gradual_cliff_months, 5);
    assert_eq!(pool.gradual_tranche_months, 1);
    assert_eq!(pool.gradual_tranches, 4);
}

#[test]
fn subscribe_charges_fee_and_reserves_allocation() {
    let mut pool = fresh_pool();
    let t0: i64 = 1000;
    let out = subscribe(&mut pool, &sub_req(), INITIAL_SUPPLY, SubKind::Cliff, t0).unwrap();
    let (sub, fee, event) = out;
    assert_eq!(sub.pool, POOL_KEY);
    assert_eq!(sub.user, USER);
    assert_eq!(sub.amount, PER_SUB_ALLOCATION);
    assert_eq!(sub.start_at, t0);
    assert_eq!(sub.index, 0);
    assert_eq!(sub.claimed_amount, 0);
    assert!(!sub.claimed);
    assert_eq!(sub.unlock_at, t0 + 6 * SECS_PER_MONTH);
    assert_eq!(
        fee,
        Some(TransferAction { from: USER_USDC, to: USDC_VAULT, amount: PER_SUB_PRICE_USDC })
    );
    assert_eq!(
        event,
        Subscribed {
            user: USER,
            amount: PER_SUB_ALLOCATION,
            unlock_at: sub.unlock_at,
            sub_index: 0,
            kind: SubKind::Cliff,
            price_usdc: PER_SUB_PRICE_USDC,
        }
    );
    assert_eq!(pool.total_reserved, PER_SUB_ALLOCATION);
    assert_eq!(pool.usdc_balance, PER_SUB_PRICE_USDC);
    assert_eq!(pool.next_sub_index, 1);
}

#[test]
fn subscribe_assigns_indices_in_order() {
    let mut pool = fresh_pool();
    let (s0, _, _) = subscribe(&mut pool, &sub_req(), INITIAL_SUPPLY, SubKind::Cliff, 0).unwrap();
    let (s1, _, _) =
        subscribe(&mut pool, &sub_req(), INITIAL_SUPPLY, SubKind::Gradual, 5).unwrap();
    assert_eq!(s0.index, 0);
    assert_eq!(s1.index, 1);
    assert_eq!(pool.next_sub_index, 2);
    assert_eq!(s1.unlock_at, 5 + 6 * SECS_PER_MONTH);
}

#[test]
fn cliff_subscription_claims_in_full_at_cliff() {
    let mut pool = fresh_pool();
    let t0: i64 = 1000;
    let (mut sub, _, _) =
        subscribe(&mut pool, &sub_req(), INITIAL_SUPPLY, SubKind::Cliff, t0).unwrap();
    let early = claim(&mut pool, &mut sub, &claim_req(), t0 + 5 * SECS_PER_MONTH);
    assert_eq!(early, Err(ErrorCode::StillLocked));
    assert_eq!(sub.claimed_amount, 0);
    assert_eq!(pool.total_reserved, PER_SUB_ALLOCATION);

    let (payout, event) = claim(&mut pool, &mut sub, &claim_req(), t0 + 6 * SECS_PER_MONTH)
        .unwrap();
    assert_eq!(
        payout,
        TransferAction { from: REWARD_VAULT, to: USER_REWARD, amount: PER_SUB_ALLOCATION }
    );
    assert_eq!(event, Claimed { user: USER, amount: PER_SUB_ALLOCATION });
    assert!(sub.claimed);
    assert_eq!(sub.claimed_amount, PER_SUB_ALLOCATION);
    assert_eq!(pool.total_reserved, 0);
    assert_eq!(pool.total_claimed, PER_SUB_ALLOCATION);
}

#[test]
fn gradual_subscription_claims_tranche_by_tranche() {
    let mut pool = fresh_pool();
    let (mut sub, _, _) =
        subscribe(&mut pool, &sub_req(), INITIAL_SUPPLY, SubKind::Gradual, 0).unwrap();
    assert_eq!(sub.unlock_at, 6 * SECS_PER_MONTH);
    let quarter = PER_SUB_ALLOCATION / 4;

    let (p1, _) = claim(&mut pool, &mut sub, &claim_req(), 6 * SECS_PER_MONTH).unwrap();
    assert_eq!(p1.amount, quarter);
    assert_eq!(sub.claimed_amount, quarter);
    assert!(!sub.claimed);

    let mid = 8 * SECS_PER_MONTH + SECS_PER_MONTH / 2;
    let (p2, _) = claim(&mut pool, &mut sub, &claim_req(), mid).unwrap();
    assert_eq!(p2.amount, 2 * quarter);
    assert_eq!(sub.claimed_amount, 3 * quarter);

    let (p3, _) = claim(&mut pool, &mut sub, &claim_req(), 9 * SECS_PER_MONTH).unwrap();
    assert_eq!(p3.amount, quarter);
    assert_eq!(sub.claimed_amount, PER_SUB_ALLOCATION);
    assert!(sub.claimed);
    assert_eq!(pool.total_reserved, 0);
    assert_eq!(pool.total_claimed, PER_SUB_ALLOCATION);
}

#[test]
fn second_claim_with_no_time_elapsed_is_rejected() {
    let mut pool = fresh_pool();
    let t0: i64 = 0;
    let (mut sub, _, _) =
        subscribe(&mut pool, &sub_req(), INITIAL_SUPPLY, SubKind::Gradual, t0).unwrap();
    let now = 7 * SECS_PER_MONTH;
    claim(&mut pool, &mut sub, &claim_req(), now).unwrap();
    let claimed_before = sub.claimed_amount;
    let pool_before = pool;
    let again = claim(&mut pool, &mut sub, &claim_req(), now);
    assert_eq!(again, Err(ErrorCode::NothingToClaim));
    assert_eq!(sub.claimed_amount, claimed_before);
    assert_eq!(pool, pool_before);
}

#[test]
fn reserved_plus_claimed_is_conserved_by_claims() {
    let mut pool = fresh_pool();
    let (mut a, _, _) = subscribe(&mut pool, &sub_req(), INITIAL_SUPPLY, SubKind::Cliff, 0)
        .unwrap();
    assert_eq!(pool.total_reserved + pool.total_claimed, PER_SUB_ALLOCATION);
    let (mut b, _, _) = subscribe(&mut pool, &sub_req(), INITIAL_SUPPLY, SubKind::Gradual, 0)
        .unwrap();
    assert_eq!(pool.total_reserved + pool.total_claimed, 2 * PER_SUB_ALLOCATION);

    claim(&mut pool, &mut a, &claim_req(), 6 * SECS_PER_MONTH).unwrap();
    assert_eq!(pool.total_reserved + pool.total_claimed, 2 * PER_SUB_ALLOCATION);
    claim(&mut pool, &mut b, &claim_req(), 7 * SECS_PER_MONTH).unwrap();
    assert_eq!(pool.total_reserved + pool.total_claimed, 2 * PER_SUB_ALLOCATION);
    claim(&mut pool, &mut b, &claim_req(), 9 * SECS_PER_MONTH).unwrap();
    assert_eq!(pool.total_reserved + pool.total_claimed, 2 * PER_SUB_ALLOCATION);
    assert_eq!(pool.total_claimed, 2 * PER_SUB_ALLOCATION);
    assert_eq!(pool.total_reserved, 0);
}

#[test]
fn paused_pool_rejects_subscribe_and_claim() {
    let mut pool = fresh_pool();
    let (mut sub, _, _) =
        subscribe(&mut pool, &sub_req(), INITIAL_SUPPLY, SubKind::Cliff, 0).unwrap();
    let toggled = set_paused(&mut pool, &SetPaused { authority: AUTHORITY }, true).unwrap();
    assert_eq!(toggled, PauseToggled { paused: true });
    assert!(pool.paused);

    let denied = subscribe(&mut pool, &sub_req(), INITIAL_SUPPLY, SubKind::Cliff, 0);
    assert_eq!(denied.unwrap_err(), ErrorCode::Paused);
    let denied = claim(&mut pool, &mut sub, &claim_req(), 6 * SECS_PER_MONTH);
    assert_eq!(denied.unwrap_err(), ErrorCode::Paused);

    set_paused(&mut pool, &SetPaused { authority: AUTHORITY }, false).unwrap();
    assert!(!pool.paused);
    assert!(subscribe(&mut pool, &sub_req(), INITIAL_SUPPLY, SubKind::Cliff, 0).is_ok());
}

#[test]
fn set_paused_rejects_non_authority() {
    let mut pool = fresh_pool();
    let before = pool;
    let denied = set_paused(&mut pool, &SetPaused { authority: AccountId(99) }, true);
    assert_eq!(denied, Err(ErrorCode::Unauthorized));
    assert_eq!(pool, before);
}

#[test]
fn subscribe_rejects_underfunded_vault() {
    let mut pool = fresh_pool();
    let before = pool;
    let denied = subscribe(
        &mut pool,
        &sub_req(),
        PER_SUB_ALLOCATION - 1,
        SubKind::Cliff,
        0,
    );
    assert_eq!(denied, Err(ErrorCode::InsufficientPoolBalance));
    assert_eq!(pool, before);
    assert_eq!(pool.next_sub_index, 0);
}

#[test]
fn subscribe_rejects_vault_below_reservations() {
    let mut pool = fresh_pool();
    subscribe(&mut pool, &sub_req(), INITIAL_SUPPLY, SubKind::Cliff, 0).unwrap();
    let denied = subscribe(&mut pool, &sub_req(), 0, SubKind::Cliff, 0);
    assert_eq!(denied, Err(ErrorCode::MathOverflow));
}

#[test]
fn subscribe_covers_exactly_one_more_allocation() {
    let mut pool = fresh_pool();
    subscribe(&mut pool, &sub_req(), 2 * PER_SUB_ALLOCATION, SubKind::Cliff, 0).unwrap();
    subscribe(&mut pool, &sub_req(), 2 * PER_SUB_ALLOCATION, SubKind::Cliff, 0).unwrap();
    let denied = subscribe(&mut pool, &sub_req(), 2 * PER_SUB_ALLOCATION, SubKind::Cliff, 0);
    assert_eq!(denied, Err(ErrorCode::InsufficientPoolBalance));
}

#[test]
fn claim_rejects_wrong_owner_and_wrong_pool() {
    let mut pool = fresh_pool();
    let (mut sub, _, _) =
        subscribe(&mut pool, &sub_req(), INITIAL_SUPPLY, SubKind::Cliff, 0).unwrap();
    let wrong_user = Claim { pool: POOL_KEY, user: AccountId(99), user_reward_ata: USER_REWARD };
    assert_eq!(
        claim(&mut pool, &mut sub, &wrong_user, 6 * SECS_PER_MONTH),
        Err(ErrorCode::AccountMismatch)
    );
    let wrong_pool = Claim { pool: AccountId(999), user: USER, user_reward_ata: USER_REWARD };
    assert_eq!(
        claim(&mut pool, &mut sub, &wrong_pool, 6 * SECS_PER_MONTH),
        Err(ErrorCode::AccountMismatch)
    );
    assert_eq!(sub.claimed_amount, 0);
}

#[test]
fn claim_propagates_schedule_overflow() {
    let mut pool = fresh_pool();
    let (mut sub, _, _) =
        subscribe(&mut pool, &sub_req(), INITIAL_SUPPLY, SubKind::Cliff, 0).unwrap();
    sub.start_at = i64::MAX - 100;
    assert_eq!(
        claim(&mut pool, &mut sub, &claim_req(), i64::MAX),
        Err(ErrorCode::MathOverflow)
    );
}

#[test]
fn subscribe_rejects_unlock_time_beyond_clock() {
    let mut pool = fresh_pool();
    let before = pool;
    let denied = subscribe(
        &mut pool,
        &sub_req(),
        INITIAL_SUPPLY,
        SubKind::Cliff,
        i64::MAX - 100,
    );
    assert_eq!(denied, Err(ErrorCode::MathOverflow));
    assert_eq!(pool, before);
}

#[test]
fn admin_withdraws_collected_fees_only() {
    let mut pool = fresh_pool();
    subscribe(&mut pool, &sub_req(), INITIAL_SUPPLY, SubKind::Cliff, 0).unwrap();
    assert_eq!(pool.usdc_balance, PER_SUB_PRICE_USDC);

    let req = AdminWithdrawUsdc { authority: AUTHORITY, authority_usdc_ata: AccountId(7) };
    let (payout, event) = admin_withdraw_usdc(&mut pool, &req, 4_000_000).unwrap();
    assert_eq!(payout, TransferAction { from: USDC_VAULT, to: AccountId(7), amount: 4_000_000 });
    assert_eq!(event.to, AUTHORITY);
    assert_eq!(event.amount, 4_000_000);
    assert_eq!(pool.usdc_balance, PER_SUB_PRICE_USDC - 4_000_000);

    let too_much = admin_withdraw_usdc(&mut pool, &req, PER_SUB_PRICE_USDC);
    assert_eq!(too_much, Err(ErrorCode::MathOverflow));
    let zero = admin_withdraw_usdc(&mut pool, &req, 0);
    assert_eq!(zero, Err(ErrorCode::ZeroAmount));
}

#[test]
fn admin_withdraw_rejects_non_authority() {
    let mut pool = fresh_pool();
    subscribe(&mut pool, &sub_req(), INITIAL_SUPPLY, SubKind::Cliff, 0).unwrap();
    let before = pool;
    let req = AdminWithdrawUsdc { authority: AccountId(99), authority_usdc_ata: AccountId(7) };
    let denied = admin_withdraw_usdc(&mut pool, &req, 1);
    assert_eq!(denied, Err(ErrorCode::Unauthorized));
    assert_eq!(pool, before);
}

#[test]
fn close_only_after_full_claim() {
    let mut pool = fresh_pool();
    let (mut sub, _, _) =
        subscribe(&mut pool, &sub_req(), INITIAL_SUPPLY, SubKind::Cliff, 0).unwrap();
    let close_req = CloseSubscription { user: USER };
    assert_eq!(
        close_subscription(&sub, &close_req),
        Err(ErrorCode::NotYetFullyClaimed)
    );
    claim(&mut pool, &mut sub, &claim_req(), 6 * SECS_PER_MONTH).unwrap();
    assert_eq!(close_subscription(&sub, &close_req), Ok(()));
}
