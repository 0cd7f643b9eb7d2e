//! Custody gateway interface: the value movements an operation asks the
//! external value-transfer service to perform, with their authorization.
//!
//! The ledger operations only decide; the caller performs each returned
//! action against the real vault and must abort the whole operation, state
//! changes included, if the transfer fails.

use vstd::prelude::*;

verus! {

/// Who authorizes a transfer out of its source.
#[derive(Clone, Copy, Debug)]
pub enum TransferAuthority {
    /// A live signature from the external owner of the source.
    Participant {
        /// The signing owner.
        owner: [u8; 32],
    },
    /// The pool's derived signing authority, re-derivable from the treasury
    /// tag and the asset identity.
    PoolDerived {
        /// The asset identity the authority is derived from.
        trade_mint: [u8; 32],
    },
}

/// One value movement to be performed by the external value-transfer service.
#[derive(Clone, Copy, Debug)]
pub struct TransferAction {
    /// Storage location the value leaves.
    pub source: [u8; 32],
    /// Storage location the value enters.
    pub destination: [u8; 32],
    /// Authorization for the outflow from `source`.
    pub authority: TransferAuthority,
    /// Amount moved, in base units.
    pub amount: u64,
}

} // verus!
