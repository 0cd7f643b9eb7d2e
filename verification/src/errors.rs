//! Error taxonomy for the wagering ledger.
//!
//! Every operation either fully completes or aborts with exactly one of these
//! errors and no state change.

use vstd::prelude::*;

verus! {

/// Why an operation was rejected.
#[derive(Clone, Copy, PartialEq, Eq, Structural, Debug)]
pub enum CoinFlipError {
    /// The caller is not the recorded controller (or owner) for a
    /// controller-only operation.
    AccessDenied,
    /// A withdrawal was requested against a zero credit balance.
    InsufficientFunds,
    /// The lifetime cap on spin-mode wagers was reached.
    LimitExceeded,
}

/// Fail-fast guard: `Ok` when the flag holds, otherwise the given error.
pub fn require(flag: bool, err: CoinFlipError) -> (r: Result<(), CoinFlipError>)
    ensures
        r is Ok <==> flag,
        r is Err ==> r->Err_0 == err,
{
    if !flag {
        return Err(err);
    }
    Ok(())
}

} // verus!
