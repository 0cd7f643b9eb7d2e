use coin_flip::claim;
use coin_flip::create_treasury;
use coin_flip::get_random;
use coin_flip::process_game;
use coin_flip::CoinFlipError;
use coin_flip::TradeTreasury;
use coin_flip::TransferAuthority;
use coin_flip::UserTreasury;

fn key(b: u8) -> [u8; 32] {
    [b; 32]
}

const CONTROLLER: u8 = 1;
const MINT: u8 = 2;
const VAULT: u8 = 3;
const USER: u8 = 4;
const USER_VAULT: u8 = 5;
const POOL_KEY: u8 = 9;

fn fresh_pool() -> TradeTreasury {
    let mut t = TradeTreasury {
        super_owner: key(0),
        trade_mint: key(0),
        trade_vault: key(0),
        balance: 0,
        claimed_amount: 0,
        decimals: 0,
    };
    create_treasury(&mut t, true, key(CONTROLLER), key(MINT), key(VAULT), 6).unwrap();
    t
}

fn fresh_user() -> UserTreasury {
    UserTreasury {
        owner: key(0),
        trade_treasury: key(0),
        trade_mint: key(0),
        balance: 0,
        general_win_cnt: 0,
        general_lose_cnt: 0,
        spin_win_cnt: 0,
        spin_lose_cnt: 0,
        decimals: 0,
    }
}

/// The choice that wins for this participant at this timestamp.
fn winning_choice(timestamp: u64, participant: [u8; 32]) -> bool {
    get_random(timestamp, participant) % 2 == 0
}

#[test]
fn test_general_win_credits_payout() {
    let mut t = fresh_pool();
    let mut u = fresh_user();
    let ts: u64 = 1_111;
    let choice = winning_choice(ts, key(USER));
    let action = process_game(
        &mut u,
        &mut t,
        key(USER),
        key(POOL_KEY),
        key(USER_VAULT),
        1_000_000,
        choice,
        false,
        ts,
    )
    .unwrap();
    assert_eq!(action.amount, 1_000_000);
    assert_eq!(action.source, key(USER_VAULT));
    assert_eq!(action.destination, key(VAULT));
    assert!(matches!(
        action.authority,
        TransferAuthority::Participant { owner } if owner == key(USER)
    ));
    assert_eq!(u.balance, 1_960_000);
    assert_eq!(u.general_win_cnt, 1);
    assert_eq!(u.general_lose_cnt, 0);
    assert_eq!(t.balance, 1_000_000);
    assert_eq!(u.owner, key(USER));
    assert_eq!(u.trade_treasury, key(POOL_KEY));
    assert_eq!(u.trade_mint, key(MINT));
    assert_eq!(u.decimals, 6);
}

#[test]
fn test_general_loss_keeps_credit_at_zero() {
    let mut t = fresh_pool();
    let mut u = fresh_user();
    let ts: u64 = 1_111;
    let choice = !winning_choice(ts, key(USER));
    process_game(
        &mut u,
        &mut t,
        key(USER),
        key(POOL_KEY),
        key(USER_VAULT),
        1_000_000,
        choice,
        false,
        ts,
    )
    .unwrap();
    assert_eq!(u.balance, 0);
    assert_eq!(u.general_win_cnt, 0);
    assert_eq!(u.general_lose_cnt, 1);
    // the stake still entered the pool
    assert_eq!(t.balance, 1_000_000);
}

#[test]
fn test_general_payout_exact_formula() {
    let mut t = fresh_pool();
    let mut u = fresh_user();
    let ts: u64 = 7;
    let choice = winning_choice(ts, key(USER));
    process_game(
        &mut u,
        &mut t,
        key(USER),
        key(POOL_KEY),
        key(USER_VAULT),
        999,
        choice,
        false,
        ts,
    )
    .unwrap();
    // floor(999 * 2 * 98 / 100)
    assert_eq!(u.balance, 1_958);
}

#[test]
fn test_spin_win_pays_flat_reward() {
    let mut t = fresh_pool();
    let mut u = fresh_user();
    let ts: u64 = 33;
    let choice = winning_choice(ts, key(USER));
    process_game(
        &mut u,
        &mut t,
        key(USER),
        key(POOL_KEY),
        key(USER_VAULT),
        7,
        choice,
        true,
        ts,
    )
    .unwrap();
    // the flat reward, regardless of the tiny stake
    assert_eq!(u.balance, 500_000_000);
    assert_eq!(u.spin_win_cnt, 1);
    assert_eq!(u.spin_lose_cnt, 0);
    assert_eq!(t.balance, 7);
}

#[test]
fn test_spin_cap_rejects_eleventh_wager() {
    let mut t = fresh_pool();
    let mut u = fresh_user();
    for i in 0..10u64 {
        let r = process_game(
            &mut u,
            &mut t,
            key(USER),
            key(POOL_KEY),
            key(USER_VAULT),
            100,
            i % 2 == 0,
            true,
            1_000 + i,
        );
        assert!(r.is_ok());
    }
    assert_eq!(u.spin_win_cnt + u.spin_lose_cnt, 10);
    let before_user = u;
    let before_pool = t;
    let r = process_game(
        &mut u,
        &mut t,
        key(USER),
        key(POOL_KEY),
        key(USER_VAULT),
        123_456,
        true,
        true,
        9_999,
    );
    assert_eq!(r.unwrap_err(), CoinFlipError::LimitExceeded);
    // rejected before any funds move: nothing changed
    assert_eq!(u.spin_win_cnt, before_user.spin_win_cnt);
    assert_eq!(u.spin_lose_cnt, before_user.spin_lose_cnt);
    assert_eq!(u.balance, before_user.balance);
    assert_eq!(t.balance, before_pool.balance);
    // general-mode wagers are still accepted
    let r2 = process_game(
        &mut u,
        &mut t,
        key(USER),
        key(POOL_KEY),
        key(USER_VAULT),
        50,
        true,
        false,
        10_000,
    );
    assert!(r2.is_ok());
}

#[test]
fn test_claim_pays_full_credit_and_zeroes_it() {
    let mut t = fresh_pool();
    t.balance = 2_000_000;
    let mut u = UserTreasury {
        owner: key(USER),
        trade_treasury: key(POOL_KEY),
        trade_mint: key(MINT),
        balance: 1_960_000,
        general_win_cnt: 1,
        general_lose_cnt: 0,
        spin_win_cnt: 0,
        spin_lose_cnt: 0,
        decimals: 6,
    };
    let action = claim(&mut u, &mut t, key(USER), key(POOL_KEY), key(USER_VAULT)).unwrap();
    assert_eq!(action.amount, 1_960_000);
    assert_eq!(action.source, key(VAULT));
    assert_eq!(action.destination, key(USER_VAULT));
    assert!(matches!(
        action.authority,
        TransferAuthority::PoolDerived { trade_mint } if trade_mint == key(MINT)
    ));
    assert_eq!(u.balance, 0);
    assert_eq!(t.balance, 40_000);
}

#[test]
fn test_claim_rejects_zero_credit() {
    let mut t = fresh_pool();
    t.balance = 1_000;
    let mut u = UserTreasury {
        owner: key(USER),
        trade_treasury: key(POOL_KEY),
        trade_mint: key(MINT),
        balance: 0,
        general_win_cnt: 0,
        general_lose_cnt: 3,
        spin_win_cnt: 0,
        spin_lose_cnt: 0,
        decimals: 6,
    };
    let r = claim(&mut u, &mut t, key(USER), key(POOL_KEY), key(USER_VAULT));
    assert_eq!(r.unwrap_err(), CoinFlipError::InsufficientFunds);
    assert_eq!(t.balance, 1_000);
}

#[test]
fn test_claim_after_rebinding_sees_no_credit() {
    let mut t = fresh_pool();
    t.balance = 1_000;
    // credit earned against a different pool binding does not carry over
    let mut u = UserTreasury {
        owner: key(USER),
        trade_treasury: key(8),
        trade_mint: key(7),
        balance: 555,
        general_win_cnt: 1,
        general_lose_cnt: 0,
        spin_win_cnt: 0,
        spin_lose_cnt: 0,
        decimals: 6,
    };
    let r = claim(&mut u, &mut t, key(USER), key(POOL_KEY), key(USER_VAULT));
    assert_eq!(r.unwrap_err(), CoinFlipError::InsufficientFunds);
    // the rejected operation left the old binding untouched
    assert_eq!(u.trade_treasury, key(8));
    assert_eq!(u.balance, 555);
}

#[test]
fn test_rebinding_resets_ledger_on_wager() {
    let mut t = fresh_pool();
    let mut u = UserTreasury {
        owner: key(USER),
        trade_treasury: key(8),
        trade_mint: key(7),
        balance: 555,
        general_win_cnt: 4,
        general_lose_cnt: 5,
        spin_win_cnt: 6,
        spin_lose_cnt: 4,
        decimals: 0,
    };
    let ts: u64 = 21;
    let choice = !winning_choice(ts, key(USER));
    // a spin wager is accepted although the stale counters are at the cap,
    // because rebinding resets them first
    let r = process_game(
        &mut u,
        &mut t,
        key(USER),
        key(POOL_KEY),
        key(USER_VAULT),
        10,
        choice,
        true,
        ts,
    );
    assert!(r.is_ok());
    assert_eq!(u.trade_treasury, key(POOL_KEY));
    assert_eq!(u.balance, 0);
    assert_eq!(u.general_win_cnt, 0);
    assert_eq!(u.general_lose_cnt, 0);
    assert_eq!(u.spin_win_cnt, 0);
    assert_eq!(u.spin_lose_cnt, 1);
}

#[test]
fn test_solvency_tracked_against_vault() {
    // vault holdings tracked alongside the ledger: the pool balance plus all
    // outstanding credit stays within the vault when every credited win is
    // backed by the vault surplus
    let mut t = fresh_pool();
    let mut vault: u64 = 10_000_000; // prefunded by the operator
    let mut total_credit: u64 = 0;

    // participant A wins a general-mode wager
    let mut a = fresh_user();
    let ts: u64 = 51;
    let choice = winning_choice(ts, key(USER));
    process_game(
        &mut a,
        &mut t,
        key(USER),
        key(POOL_KEY),
        key(USER_VAULT),
        1_000_000,
        choice,
        false,
        ts,
    )
    .unwrap();
    vault += 1_000_000;
    total_credit += a.balance;
    assert!(t.balance + total_credit <= vault);

    // participant B stakes and loses
    let mut b = fresh_user();
    let ts2: u64 = 52;
    let choice2 = !winning_choice(ts2, key(6));
    process_game(
        &mut b,
        &mut t,
        key(6),
        key(POOL_KEY),
        key(7),
        5_000_000,
        choice2,
        false,
        ts2,
    )
    .unwrap();
    vault += 5_000_000;
    total_credit += b.balance;
    assert!(t.balance + total_credit <= vault);

    // participant A claims the full credit
    let payout = claim(&mut a, &mut t, key(USER), key(POOL_KEY), key(USER_VAULT))
        .unwrap()
        .amount;
    vault -= payout;
    total_credit -= payout;
    assert_eq!(a.balance, 0);
    assert!(t.balance + total_credit <= vault);
}
