//! A custodial wagering ledger: a shared pool custodies staked value for many
//! participants, resolves binary wagers, tracks per-participant credit, and
//! releases credit on demand.

mod entropy;
mod errors;
mod game;
mod keys;
mod laws;
mod location;
mod transfer;
mod treasury;
mod user;

pub use entropy::get_random;
pub use entropy::identity_hash;
pub use entropy::outcome_bit;
pub use errors::CoinFlipError;
pub use errors::require;
pub use game::claim;
pub use game::general_payout;
pub use game::process_game;
pub use game::settled_user;
pub use game::wager_allowed;
pub use game::SPIN_CAP;
pub use game::SPIN_REWARD;
pub use keys::same_key;
pub use location::derived_address;
pub use location::treasury_location;
pub use location::treasury_seeds;
pub use location::user_treasury_location;
pub use location::user_treasury_seeds;
pub use location::vault_location;
pub use location::vault_seeds;
pub use location::PROGRAM_ID;
pub use location::TREASURY_TAG;
pub use location::USER_TREASURY_TAG;
pub use location::VAULT_TAG;
pub use laws::apply_op;
pub use laws::apply_ops;
pub use laws::lemma_create_idempotent;
pub use laws::lemma_solvency;
pub use laws::lemma_spin_cap;
pub use laws::lemma_win_payout;
pub use laws::op_covered;
pub use laws::ops_covered;
pub use laws::solvent;
pub use laws::wager_payout;
pub use laws::CustodyOp;
pub use laws::CustodyTotals;
pub use transfer::TransferAction;
pub use transfer::TransferAuthority;
pub use treasury::create_allowed;
pub use treasury::create_treasury;
pub use treasury::created_treasury;
pub use treasury::claim_treasury;
pub use treasury::is_zero_account;
pub use treasury::TradeTreasury;
pub use user::rebound;
pub use user::spin_total;
pub use user::UserTreasury;
