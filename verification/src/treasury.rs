//! Pool account lifecycle: creation by its controller and controller
//! withdrawal of pool-owned value.

use vstd::prelude::*;
use crate::errors::CoinFlipError;
use crate::errors::require;
use crate::keys::same_key;
use crate::transfer::TransferAction;
use crate::transfer::TransferAuthority;

verus! {

/// Pool account: singleton-per-asset record of custodied value and cumulative
/// controller withdrawals. It owns the derived signing authority that moves
/// value out of the pool vault.
#[derive(Clone, Copy, Debug)]
pub struct TradeTreasury {
    /// Identity authorized to (re)create the pool and withdraw its value.
    /// Set once on first creation; immutable thereafter.
    pub super_owner: [u8; 32],
    /// Identity of the custodied asset.
    pub trade_mint: [u8; 32],
    /// Identity of the storage location holding the custodied value.
    pub trade_vault: [u8; 32],
    /// Portion of the vault holdings still earmarked as pool-owned.
    pub balance: u64,
    /// Value ever released to the controller; never decreases.
    pub claimed_amount: u64,
    /// Fixed-point precision of the asset, copied at creation.
    pub decimals: u32,
}

/// Whether a creation request is allowed: the record is still uninitialized
/// (all-zero storage), or the caller is the recorded controller.
pub open spec fn create_allowed(t: TradeTreasury, account_was_zero: bool, authority: [u8; 32]) -> bool {
    account_was_zero || t.super_owner@ == authority@
}

/// The pool record an allowed creation leaves behind: configuration stamped
/// from the asset definition, `balance` reset, the withdrawal counter kept.
pub open spec fn created_treasury(
    t: TradeTreasury,
    account_was_zero: bool,
    authority: [u8; 32],
    trade_mint: [u8; 32],
    trade_vault: [u8; 32],
    mint_decimals: u8,
) -> TradeTreasury {
    TradeTreasury {
        super_owner: if account_was_zero { authority } else { t.super_owner },
        trade_mint,
        trade_vault,
        balance: 0,
        claimed_amount: t.claimed_amount,
        decimals: mint_decimals as u32,
    }
}

/// Whether a stored record is still uninitialized: every byte zero.
pub fn is_zero_account(account_data: &[u8]) -> (r: bool)
    ensures
        r <==> (forall|i: int| 0 <= i < account_data@.len() ==> account_data@[i] == 0),
{
    let len = account_data.len();
    let mut i: usize = 0;
    while i < len
        invariant
            0 <= i <= len,
            len == account_data@.len(),
            forall|j: int| 0 <= j < i ==> account_data@[j] == 0,
        decreases len - i,
    {
        if *vstd::slice::slice_index_get(account_data, i) != 0 {
            return false;
        }
        i = i + 1;
    }
    true
}

/// Establish the pool for an asset, or re-verify it.
///
/// On the first call (`account_was_zero`) the caller becomes the recorded
/// controller; afterwards only the recorded controller may re-invoke it,
/// which merely re-stamps the configuration. Anyone else is rejected with
/// `AccessDenied` and the record is left untouched.
pub fn create_treasury(
    trade_treasury: &mut TradeTreasury,
    account_was_zero: bool,
    authority: [u8; 32],
    trade_mint: [u8; 32],
    trade_vault: [u8; 32],
    mint_decimals: u8,
) -> (r: Result<(), CoinFlipError>)
    ensures
        r is Ok <==> create_allowed(*old(trade_treasury), account_was_zero, authority),
        r is Ok ==> *final(trade_treasury) == created_treasury(
            *old(trade_treasury),
            account_was_zero,
            authority,
            trade_mint,
            trade_vault,
            mint_decimals,
        ),
        r is Err ==> *final(trade_treasury) == *old(trade_treasury)
            && r->Err_0 == CoinFlipError::AccessDenied,
{
    if account_was_zero {
        trade_treasury.super_owner = authority;
    }
    match require(
        same_key(&authority, &trade_treasury.super_owner),
        CoinFlipError::AccessDenied,
    ) {
        Err(e) => {
            return Err(e);
        },
        Ok(u) => u,
    }
    trade_treasury.trade_mint = trade_mint;
    trade_treasury.trade_vault = trade_vault;
    trade_treasury.balance = 0;
    trade_treasury.decimals = mint_decimals as u32;
    Ok(())
}

/// Release the full current vault holdings to the controller.
///
/// Only the recorded controller may call this; anyone else is rejected with
/// `AccessDenied`. The withdrawal counter grows by the pre-transfer
/// `balance`; `balance` itself is clamped to zero when the vault held more
/// than the pool had earmarked (unreconciled holdings), and decremented by
/// the transferred amount otherwise.
pub fn claim_treasury(
    trade_treasury: &mut TradeTreasury,
    authority: [u8; 32],
    user_vault: [u8; 32],
    trade_vault_amount: u64,
) -> (r: Result<TransferAction, CoinFlipError>)
    requires
        old(trade_treasury).claimed_amount + old(trade_treasury).balance <= u64::MAX,
    ensures
        r is Ok <==> old(trade_treasury).super_owner@ == authority@,
        r is Ok ==> r->Ok_0 == (TransferAction {
            source: old(trade_treasury).trade_vault,
            destination: user_vault,
            authority: TransferAuthority::PoolDerived { trade_mint: old(trade_treasury).trade_mint },
            amount: trade_vault_amount,
        }),
        r is Ok ==> *final(trade_treasury) == (TradeTreasury {
            balance: if trade_vault_amount > old(trade_treasury).balance {
                0u64
            } else {
                (old(trade_treasury).balance - trade_vault_amount) as u64
            },
            claimed_amount: (old(trade_treasury).claimed_amount
                + old(trade_treasury).balance) as u64,
            ..*old(trade_treasury)
        }),
        r is Err ==> *final(trade_treasury) == *old(trade_treasury)
            && r->Err_0 == CoinFlipError::AccessDenied,
{
    match require(
        same_key(&authority, &trade_treasury.super_owner),
        CoinFlipError::AccessDenied,
    ) {
        Err(e) => {
            return Err(e);
        },
        Ok(u) => u,
    }
    let action = TransferAction {
        source: trade_treasury.trade_vault,
        destination: user_vault,
        authority: TransferAuthority::PoolDerived { trade_mint: trade_treasury.trade_mint },
        amount: trade_vault_amount,
    };
    trade_treasury.claimed_amount = trade_treasury.claimed_amount + trade_treasury.balance;
    if trade_vault_amount > trade_treasury.balance {
        trade_treasury.balance = 0;
    } else {
        trade_treasury.balance = trade_treasury.balance - trade_vault_amount;
    }
    Ok(action)
}

} // verus!
