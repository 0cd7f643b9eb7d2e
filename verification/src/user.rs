//! Participant ledger: one record per (participant, pool) pair, holding the
//! participant's withdrawable credit and its outcome history.

use vstd::prelude::*;
use crate::keys::same_key;

verus! {

/// Per-participant ledger bound to exactly one pool and asset.
///
/// Invariant maintained by the operations: at the moment a spin-mode wager is
/// accepted, `spin_win_cnt + spin_lose_cnt` is below the lifetime cap, so the
/// sum never exceeds the cap afterwards.
#[derive(Clone, Copy, Debug)]
pub struct UserTreasury {
    /// The participant this ledger belongs to.
    pub owner: [u8; 32],
    /// The pool account this ledger is bound to.
    pub trade_treasury: [u8; 32],
    /// The asset custodied by that pool.
    pub trade_mint: [u8; 32],
    /// Value owed to the participant, withdrawable on demand.
    pub balance: u64,
    /// General-mode wagers won.
    pub general_win_cnt: u64,
    /// General-mode wagers lost.
    pub general_lose_cnt: u64,
    /// Spin-mode wagers won.
    pub spin_win_cnt: u64,
    /// Spin-mode wagers lost.
    pub spin_lose_cnt: u64,
    /// Fixed-point precision of the asset, copied from the pool.
    pub decimals: u32,
}

/// Number of spin-mode wagers ever settled on the current binding.
pub open spec fn spin_total(u: UserTreasury) -> int {
    u.spin_win_cnt + u.spin_lose_cnt
}

/// The ledger after lazy (re)initialization against the given pool: unchanged
/// when already bound to that pool, otherwise a fresh record for the new
/// binding, with the balance and every outcome counter reset to zero.
pub open spec fn rebound(
    u: UserTreasury,
    owner: [u8; 32],
    trade_treasury: [u8; 32],
    trade_mint: [u8; 32],
    decimals: u32,
) -> UserTreasury {
    if u.trade_treasury@ == trade_treasury@ {
        u
    } else {
        UserTreasury {
            owner,
            trade_treasury,
            trade_mint,
            balance: 0,
            general_win_cnt: 0,
            general_lose_cnt: 0,
            spin_win_cnt: 0,
            spin_lose_cnt: 0,
            decimals,
        }
    }
}

impl UserTreasury {
    /// Lazily (re)initialize the ledger: a record whose pool reference does
    /// not match the target pool is reset to a fresh binding against it.
    pub fn initialize_if_needed(
        &mut self,
        owner: [u8; 32],
        trade_treasury: [u8; 32],
        trade_mint: [u8; 32],
        decimals: u32,
    )
        ensures
            *final(self) == rebound(*old(self), owner, trade_treasury, trade_mint, decimals),
    {
        if !same_key(&self.trade_treasury, &trade_treasury) {
            self.owner = owner;
            self.trade_treasury = trade_treasury;
            self.trade_mint = trade_mint;
            self.balance = 0;
            self.general_win_cnt = 0;
            self.general_lose_cnt = 0;
            self.spin_win_cnt = 0;
            self.spin_lose_cnt = 0;
            self.decimals = decimals;
        }
    }
}

} // verus!
