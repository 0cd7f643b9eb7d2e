//! Ledger-wide laws, stated and proved over the specification functions that
//! the operations' contracts use.

use vstd::prelude::*;
use crate::game::general_payout;
use crate::game::settled_user;
use crate::game::wager_allowed;
use crate::game::SPIN_CAP;
use crate::game::SPIN_REWARD;
use crate::treasury::create_allowed;
use crate::treasury::created_treasury;
use crate::treasury::TradeTreasury;
use crate::user::rebound;
use crate::user::spin_total;
use crate::user::UserTreasury;

verus! {

/// Pool creation is idempotent for the recorded controller and rejected for
/// any other caller once the pool exists: after one allowed creation, the
/// same controller may re-create the pool with the same configuration and
/// nothing changes, while every other identity is denied.
pub proof fn lemma_create_idempotent(
    t0: TradeTreasury,
    account_was_zero: bool,
    authority: [u8; 32],
    trade_mint: [u8; 32],
    trade_vault: [u8; 32],
    mint_decimals: u8,
)
    requires
        create_allowed(t0, account_was_zero, authority),
    ensures
        ({
            let t1 = created_treasury(
                t0,
                account_was_zero,
                authority,
                trade_mint,
                trade_vault,
                mint_decimals,
            );
            &&& create_allowed(t1, false, authority)
            &&& created_treasury(t1, false, authority, trade_mint, trade_vault, mint_decimals)
                == t1
            &&& forall|other: [u8; 32]| other@ != authority@ ==> !create_allowed(t1, false, other)
        }),
{
}

/// The spin-mode wager count never exceeds the lifetime cap: a ledger within
/// the cap stays within it across lazy rebinding, and across any settled
/// wager, because a spin-mode wager is only accepted strictly below the cap.
pub proof fn lemma_spin_cap(
    u: UserTreasury,
    owner: [u8; 32],
    trade_treasury: [u8; 32],
    trade_mint: [u8; 32],
    decimals: u32,
    amount: u64,
    win: bool,
    is_spin: bool,
)
    requires
        spin_total(u) <= SPIN_CAP,
    ensures
        ({
            let u0 = rebound(u, owner, trade_treasury, trade_mint, decimals);
            &&& spin_total(u0) <= SPIN_CAP
            &&& wager_allowed(u0, is_spin) ==> spin_total(
                settled_user(u0, amount, win, is_spin),
            ) <= SPIN_CAP
        }),
{
}

/// The value a settled wager credits to the participant: the mode's win
/// payout on a win, nothing on a loss.
pub open spec fn wager_payout(amount: u64, win: bool, is_spin: bool) -> int {
    if win {
        if is_spin {
            SPIN_REWARD as int
        } else {
            general_payout(amount)
        }
    } else {
        0
    }
}

/// Win payouts are exactly the stated formulas: a general-mode win credits
/// `floor(stake * 2 * 98 / 100)`, a spin-mode win credits the flat reward
/// whatever the stake, and a loss credits nothing.
pub proof fn lemma_win_payout(u0: UserTreasury, amount: u64, is_spin: bool)
    requires
        u0.balance + general_payout(amount) <= u64::MAX,
        u0.balance + SPIN_REWARD <= u64::MAX,
    ensures
        wager_payout(amount, true, false) == amount * 2 * 98 / 100,
        wager_payout(amount, true, true) == SPIN_REWARD,
        forall|win: bool| settled_user(u0, amount, win, is_spin).balance
            == u0.balance + wager_payout(amount, win, is_spin),
{
}

/// Aggregate custody view of one pool: the vault's actual holdings, the
/// pool-owned share of them, and the sum of every participant's credit.
pub struct CustodyTotals {
    /// Actual vault holdings.
    pub vault: int,
    /// Pool-owned share recorded on the pool account.
    pub pool_balance: int,
    /// Sum of all participant credit balances drawn against this pool.
    pub credit: int,
}

/// One pool-touching operation, reduced to the value it moves.
pub enum CustodyOp {
    /// A settled wager: the stake enters the vault and the pool balance; a
    /// win credits `payout` to the wagering participant (zero on a loss).
    Wager {
        /// Stake pulled into the vault.
        stake: u64,
        /// Credit granted to the participant.
        payout: u64,
    },
    /// A participant claim: `amount` of credit leaves the vault, the pool
    /// balance and the participant's credit.
    Claim {
        /// Credit paid out.
        amount: u64,
    },
}

/// The solvency invariant: the pool-owned share and the credit owed to
/// participants are non-negative and together never exceed what the vault
/// actually holds.
pub open spec fn solvent(s: CustodyTotals) -> bool {
    &&& 0 <= s.pool_balance
    &&& 0 <= s.credit
    &&& s.pool_balance + s.credit <= s.vault
}

/// Whether an operation is covered in the given state: a wager's payout must
/// be backed by the vault surplus at the moment it is credited, and a claim
/// must pay existing credit out of the pool-owned share.
pub open spec fn op_covered(s: CustodyTotals, op: CustodyOp) -> bool {
    match op {
        CustodyOp::Wager { payout, .. } => s.pool_balance + s.credit + payout <= s.vault,
        CustodyOp::Claim { amount } => amount <= s.credit && amount <= s.pool_balance,
    }
}

/// The aggregate state after one operation.
pub open spec fn apply_op(s: CustodyTotals, op: CustodyOp) -> CustodyTotals {
    match op {
        CustodyOp::Wager { stake, payout } => CustodyTotals {
            vault: s.vault + stake,
            pool_balance: s.pool_balance + stake,
            credit: s.credit + payout,
        },
        CustodyOp::Claim { amount } => CustodyTotals {
            vault: s.vault - amount,
            pool_balance: s.pool_balance - amount,
            credit: s.credit - amount,
        },
    }
}

/// The aggregate state after a sequence of operations, first to last.
pub open spec fn apply_ops(s: CustodyTotals, ops: Seq<CustodyOp>) -> CustodyTotals
    decreases ops.len(),
{
    if ops.len() == 0 {
        s
    } else {
        apply_ops(apply_op(s, ops[0]), ops.drop_first())
    }
}

/// Whether every operation of the sequence is covered in the state it runs
/// in.
pub open spec fn ops_covered(s: CustodyTotals, ops: Seq<CustodyOp>) -> bool
    decreases ops.len(),
{
    ops.len() == 0 || (op_covered(s, ops[0]) && ops_covered(apply_op(s, ops[0]), ops.drop_first()))
}

/// Solvency across histories: for every sequence of wagers and claims in
/// which each credited win is backed by the vault surplus at the time it is
/// granted, the pool balance plus the sum of all participant credit never
/// exceeds the actual vault holdings.
pub proof fn lemma_solvency(s: CustodyTotals, ops: Seq<CustodyOp>)
    requires
        solvent(s),
        ops_covered(s, ops),
    ensures
        solvent(apply_ops(s, ops)),
    decreases ops.len(),
{
    if ops.len() > 0 {
        lemma_solvency(apply_op(s, ops[0]), ops.drop_first());
    }
}

} // verus!
