//! Settlement engine: wager resolution and participant withdrawal.

use vstd::prelude::*;
use crate::entropy::get_random;
use crate::entropy::lemma_entropy_parity;
use crate::entropy::outcome_bit;
use crate::errors::CoinFlipError;
use crate::errors::require;
use crate::keys::same_key;
use crate::transfer::TransferAction;
use crate::transfer::TransferAuthority;
use crate::treasury::TradeTreasury;
use crate::user::rebound;
use crate::user::spin_total;
use crate::user::UserTreasury;

verus! {

/// Flat reward credited for every spin-mode win, in base units.
pub const SPIN_REWARD: u64 = 500_000_000;

/// Lifetime cap on spin-mode wagers per ledger binding.
pub const SPIN_CAP: u64 = 10;

/// General-mode win payout: the stake doubled, less a 2% house edge,
/// rounded down.
pub open spec fn general_payout(stake: u64) -> int {
    stake * 2 * 98 / 100
}

/// Whether a wager on this (re)bound ledger is accepted: spin-mode wagers
/// are rejected once the lifetime cap is reached; general-mode wagers have
/// no cap.
pub open spec fn wager_allowed(u: UserTreasury, is_spin: bool) -> bool {
    !is_spin || spin_total(u) < SPIN_CAP
}

/// The ledger after one settled wager: a win credits the payout and bumps
/// the win counter of the wager's mode; a loss only bumps its lose counter.
pub open spec fn settled_user(u: UserTreasury, amount: u64, win: bool, is_spin: bool) -> UserTreasury {
    if win {
        if is_spin {
            UserTreasury {
                balance: (u.balance + SPIN_REWARD) as u64,
                spin_win_cnt: (u.spin_win_cnt + 1) as u64,
                ..u
            }
        } else {
            UserTreasury {
                balance: (u.balance + general_payout(amount)) as u64,
                general_win_cnt: (u.general_win_cnt + 1) as u64,
                ..u
            }
        }
    } else {
        if is_spin {
            UserTreasury { spin_lose_cnt: (u.spin_lose_cnt + 1) as u64, ..u }
        } else {
            UserTreasury { general_lose_cnt: (u.general_lose_cnt + 1) as u64, ..u }
        }
    }
}

/// Place one wager: pull the stake into the pool vault, resolve the outcome
/// bit from the timestamp and the participant's identity, and settle the
/// participant's ledger.
///
/// The ledger is lazily (re)bound to the pool first. A spin-mode wager past
/// the lifetime cap is rejected with `LimitExceeded` before any funds move,
/// leaving both records untouched. On acceptance the returned action pulls
/// the stake from the participant's vault under the participant's own
/// signature, the pool balance grows by the stake, and the ledger is settled:
/// the wager wins iff the outcome bit equals `choice`.
pub fn process_game(
    user_treasury: &mut UserTreasury,
    trade_treasury: &mut TradeTreasury,
    authority: [u8; 32],
    trade_treasury_key: [u8; 32],
    user_vault: [u8; 32],
    amount: u64,
    choice: bool,
    is_spin: bool,
    cur_timestamp: u64,
) -> (r: Result<TransferAction, CoinFlipError>)
    requires
        old(trade_treasury).balance + amount <= u64::MAX,
        old(user_treasury).spin_win_cnt + old(user_treasury).spin_lose_cnt <= u64::MAX,
        !is_spin ==> amount * 2 * 98 <= u64::MAX,
        ({
            let u0 = rebound(
                *old(user_treasury),
                authority,
                trade_treasury_key,
                old(trade_treasury).trade_mint,
                old(trade_treasury).decimals,
            );
            &&& is_spin ==> u0.balance + SPIN_REWARD <= u64::MAX
            &&& !is_spin ==> u0.balance + general_payout(amount) <= u64::MAX
            &&& !is_spin ==> u0.general_win_cnt < u64::MAX && u0.general_lose_cnt < u64::MAX
        }),
    ensures
        ({
            let u0 = rebound(
                *old(user_treasury),
                authority,
                trade_treasury_key,
                old(trade_treasury).trade_mint,
                old(trade_treasury).decimals,
            );
            let win = outcome_bit(cur_timestamp, authority@) == choice;
            &&& r is Ok <==> wager_allowed(u0, is_spin)
            &&& r is Err ==> r->Err_0 == CoinFlipError::LimitExceeded
                && *final(user_treasury) == *old(user_treasury)
                && *final(trade_treasury) == *old(trade_treasury)
            &&& r is Ok ==> r->Ok_0 == (TransferAction {
                source: user_vault,
                destination: old(trade_treasury).trade_vault,
                authority: TransferAuthority::Participant { owner: authority },
                amount,
            })
            &&& r is Ok ==> *final(trade_treasury) == (TradeTreasury {
                balance: (old(trade_treasury).balance + amount) as u64,
                ..*old(trade_treasury)
            })
            &&& r is Ok ==> *final(user_treasury) == settled_user(u0, amount, win, is_spin)
        }),
{
    let rebind = !same_key(&user_treasury.trade_treasury, &trade_treasury_key);
    let spin_seen = if rebind {
        0u64
    } else {
        user_treasury.spin_win_cnt + user_treasury.spin_lose_cnt
    };
    match require(!is_spin || spin_seen < SPIN_CAP, CoinFlipError::LimitExceeded) {
        Err(e) => {
            return Err(e);
        },
        Ok(u) => u,
    }
    user_treasury.initialize_if_needed(
        authority,
        trade_treasury_key,
        trade_treasury.trade_mint,
        trade_treasury.decimals,
    );
    let action = TransferAction {
        source: user_vault,
        destination: trade_treasury.trade_vault,
        authority: TransferAuthority::Participant { owner: authority },
        amount,
    };
    trade_treasury.balance = trade_treasury.balance + amount;

    let result_num = get_random(cur_timestamp, authority) % 2;
    let result = result_num == 0;
    proof {
        lemma_entropy_parity(cur_timestamp, authority@);
    }

    if result == choice {
        if is_spin {
            user_treasury.balance = user_treasury.balance + SPIN_REWARD;
            user_treasury.spin_win_cnt = user_treasury.spin_win_cnt + 1;
        } else {
            user_treasury.balance = user_treasury.balance + amount * 2 * 98 / 100;
            user_treasury.general_win_cnt = user_treasury.general_win_cnt + 1;
        }
    } else {
        if is_spin {
            user_treasury.spin_lose_cnt = user_treasury.spin_lose_cnt + 1;
        } else {
            user_treasury.general_lose_cnt = user_treasury.general_lose_cnt + 1;
        }
    }
    Ok(action)
}

/// Pay a participant's credit out of the pool vault.
///
/// The ledger is lazily (re)bound to the pool first. A zero credit balance is
/// rejected with `InsufficientFunds` and leaves both records untouched. On
/// success the returned action moves the whole credit from the pool vault to
/// the participant's vault under the pool's derived authority, the pool
/// balance drops by that credit, and the credit balance becomes zero.
pub fn claim(
    user_treasury: &mut UserTreasury,
    trade_treasury: &mut TradeTreasury,
    authority: [u8; 32],
    trade_treasury_key: [u8; 32],
    user_vault: [u8; 32],
) -> (r: Result<TransferAction, CoinFlipError>)
    requires
        ({
            let u0 = rebound(
                *old(user_treasury),
                authority,
                trade_treasury_key,
                old(trade_treasury).trade_mint,
                old(trade_treasury).decimals,
            );
            u0.balance <= old(trade_treasury).balance
        }),
    ensures
        ({
            let u0 = rebound(
                *old(user_treasury),
                authority,
                trade_treasury_key,
                old(trade_treasury).trade_mint,
                old(trade_treasury).decimals,
            );
            &&& r is Ok <==> u0.balance > 0
            &&& r is Err ==> r->Err_0 == CoinFlipError::InsufficientFunds
                && *final(user_treasury) == *old(user_treasury)
                && *final(trade_treasury) == *old(trade_treasury)
            &&& r is Ok ==> r->Ok_0 == (TransferAction {
                source: old(trade_treasury).trade_vault,
                destination: user_vault,
                authority: TransferAuthority::PoolDerived {
                    trade_mint: old(trade_treasury).trade_mint,
                },
                amount: u0.balance,
            })
            &&& r is Ok ==> *final(trade_treasury) == (TradeTreasury {
                balance: (old(trade_treasury).balance - u0.balance) as u64,
                ..*old(trade_treasury)
            })
            &&& r is Ok ==> *final(user_treasury) == (UserTreasury { balance: 0u64, ..u0 })
        }),
{
    let rebind = !same_key(&user_treasury.trade_treasury, &trade_treasury_key);
    let credit = if rebind {
        0u64
    } else {
        user_treasury.balance
    };
    match require(credit > 0, CoinFlipError::InsufficientFunds) {
        Err(e) => {
            return Err(e);
        },
        Ok(u) => u,
    }
    user_treasury.initialize_if_needed(
        authority,
        trade_treasury_key,
        trade_treasury.trade_mint,
        trade_treasury.decimals,
    );
    let action = TransferAction {
        source: trade_treasury.trade_vault,
        destination: user_vault,
        authority: TransferAuthority::PoolDerived { trade_mint: trade_treasury.trade_mint },
        amount: user_treasury.balance,
    };
    trade_treasury.balance = trade_treasury.balance - user_treasury.balance;
    user_treasury.balance = 0;
    Ok(action)
}

} // verus!
