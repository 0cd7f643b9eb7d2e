//! Record locations: every account this ledger touches sits at an address
//! derived deterministically from a fixed tag and the identities involved,
//! through the external address-derivation authority.

use vstd::prelude::*;
use vstd::slice::slice_to_vec;

verus! {

/// Tag under which a pool account's address is derived from its asset.
pub const TREASURY_TAG: [u8; 18] = [
    99, 111, 105, 110, 45, 102, 108, 105, 112, 45, 116, 114, 101, 97, 115, 117, 114, 121,
];

/// Tag under which a pool vault's address is derived from its asset.
pub const VAULT_TAG: [u8; 15] = [
    99, 111, 105, 110, 45, 102, 108, 105, 112, 45, 118, 97, 117, 108, 116,
];

/// Tag under which a participant ledger's address is derived from the
/// participant and the asset.
pub const USER_TREASURY_TAG: [u8; 23] = [
    99, 111, 105, 110, 45, 102, 108, 105, 112, 45, 117, 115, 101, 114, 45, 116, 114, 101, 97,
    115, 117, 114, 121,
];

/// The identity of this ledger program, under which all locations are
/// derived.
pub const PROGRAM_ID: [u8; 32] = [
    77, 4, 41, 61, 170, 125, 104, 122, 79, 235, 234, 158, 153, 93, 56, 82, 89, 127, 177, 118,
    92, 39, 151, 246, 131, 120, 199, 155, 42, 229, 46, 28,
];

/// The (address, bump) pair the external derivation authority assigns to a
/// seed list under a program identity, or nothing when no address is
/// derivable from those seeds.
pub uninterp spec fn derived_address(seeds: Seq<Seq<u8>>, program_id: Seq<u8>) -> Option<
    (Seq<u8>, u8),
>;

/// Relies on `Pubkey::try_find_program_address` (the address-derivation
/// authority re-exported by `anchor_lang`): the derived address and bump are
/// a deterministic function of the seed list and the program identity alone.
#[verifier::external_body]
fn try_derive_address(seeds: &Vec<Vec<u8>>, program_id: &[u8; 32]) -> (r: Option<([u8; 32], u8)>)
    ensures
        match r {
            Some(p) => derived_address(seeds.deep_view(), program_id@) == Some((p.0@, p.1)),
            None => derived_address(seeds.deep_view(), program_id@) is None,
        },
{
    let seed_slices: Vec<&[u8]> = seeds.iter().map(|s| s.as_slice()).collect();
    let program = anchor_lang::prelude::Pubkey::new_from_array(*program_id);
    match anchor_lang::prelude::Pubkey::try_find_program_address(&seed_slices, &program) {
        Some((key, bump)) => Some((key.to_bytes(), bump)),
        None => None,
    }
}

/// Seed list of a pool account: the treasury tag and the asset identity.
pub open spec fn treasury_seeds(trade_mint: Seq<u8>) -> Seq<Seq<u8>> {
    seq![TREASURY_TAG@, trade_mint]
}

/// Seed list of a pool vault: the vault tag and the asset identity.
pub open spec fn vault_seeds(trade_mint: Seq<u8>) -> Seq<Seq<u8>> {
    seq![VAULT_TAG@, trade_mint]
}

/// Seed list of a participant ledger: the user-treasury tag, the
/// participant and the asset identity.
pub open spec fn user_treasury_seeds(owner: Seq<u8>, trade_mint: Seq<u8>) -> Seq<Seq<u8>> {
    seq![USER_TREASURY_TAG@, owner, trade_mint]
}

/// Location of the pool account for an asset: the address derived from the
/// treasury tag and the asset identity, with its bump.
pub fn treasury_location(trade_mint: &[u8; 32]) -> (r: Option<([u8; 32], u8)>)
    ensures
        match r {
            Some(p) => derived_address(treasury_seeds(trade_mint@), PROGRAM_ID@)
                == Some((p.0@, p.1)),
            None => derived_address(treasury_seeds(trade_mint@), PROGRAM_ID@) is None,
        },
{
    let mut seeds: Vec<Vec<u8>> = Vec::new();
    seeds.push(slice_to_vec(TREASURY_TAG.as_slice()));
    seeds.push(slice_to_vec(trade_mint.as_slice()));
    proof {
        assert(seeds.deep_view() =~~= treasury_seeds(trade_mint@));
    }
    try_derive_address(&seeds, &PROGRAM_ID)
}

/// Location of the pool vault for an asset: the address derived from the
/// vault tag and the asset identity, with its bump.
pub fn vault_location(trade_mint: &[u8; 32]) -> (r: Option<([u8; 32], u8)>)
    ensures
        match r {
            Some(p) => derived_address(vault_seeds(trade_mint@), PROGRAM_ID@)
                == Some((p.0@, p.1)),
            None => derived_address(vault_seeds(trade_mint@), PROGRAM_ID@) is None,
        },
{
    let mut seeds: Vec<Vec<u8>> = Vec::new();
    seeds.push(slice_to_vec(VAULT_TAG.as_slice()));
    seeds.push(slice_to_vec(trade_mint.as_slice()));
    proof {
        assert(seeds.deep_view() =~~= vault_seeds(trade_mint@));
    }
    try_derive_address(&seeds, &PROGRAM_ID)
}

/// Location of a participant's ledger: the address derived from the
/// user-treasury tag, the participant and the asset identity, with its bump.
pub fn user_treasury_location(owner: &[u8; 32], trade_mint: &[u8; 32]) -> (r: Option<
    ([u8; 32], u8),
>)
    ensures
        match r {
            Some(p) => derived_address(user_treasury_seeds(owner@, trade_mint@), PROGRAM_ID@)
                == Some((p.0@, p.1)),
            None => derived_address(user_treasury_seeds(owner@, trade_mint@), PROGRAM_ID@)
                is None,
        },
{
    let mut seeds: Vec<Vec<u8>> = Vec::new();
    seeds.push(slice_to_vec(USER_TREASURY_TAG.as_slice()));
    seeds.push(slice_to_vec(owner.as_slice()));
    seeds.push(slice_to_vec(trade_mint.as_slice()));
    proof {
        assert(seeds.deep_view() =~~= user_treasury_seeds(owner@, trade_mint@));
    }
    try_derive_address(&seeds, &PROGRAM_ID)
}

} // verus!
