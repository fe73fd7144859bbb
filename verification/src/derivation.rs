//! Deterministic address derivation: maps a namespace tag and an ordered
//! tuple of identity bytes to a unique, non-signing account address plus a
//! disambiguating bump seed. Pure and total over its inputs; everyone can
//! recompute it.

use vstd::prelude::*;

use crate::errors::{AuthorizationError, VaultError};
use crate::ids::AccountId;

verus! {

/// Outcome of holding a derivation result against a provided address:
/// passes exactly when the derivation succeeded and produced that address.
pub open spec fn spec_check_address(
    derived: Option<(Seq<u8>, u8)>,
    given: Seq<u8>,
    mismatch: VaultError,
) -> Result<(), VaultError> {
    match derived {
        None => Err(VaultError::Authorization(AuthorizationError::DerivationExhausted)),
        Some(p) => if p.0 == given {
            Ok(())
        } else {
            Err(mismatch)
        },
    }
}

/// Hold a derivation result against a provided address, surfacing
/// `mismatch` when they differ and the exhaustion error when the derivation
/// found no address at all.
pub fn check_address(
    derived: Option<(AccountId, u8)>,
    given: &AccountId,
    mismatch: VaultError,
) -> (r: Result<(), VaultError>)
    ensures
        r == spec_check_address(derivation_view(derived), given@, mismatch),
{
    match derived {
        None => Err(VaultError::Authorization(AuthorizationError::DerivationExhausted)),
        Some(p) => if p.0.eq_id(given) {
            Ok(())
        } else {
            Err(mismatch)
        },
    }
}

/// What `Pubkey::try_find_program_address` returns for the given seeds under
/// the given program identity: a 32-byte derived address with its bump seed,
/// or nothing in the statistically improbable event that no bump seed yields
/// a valid off-curve address. The result is a function of the arguments
/// alone.
pub uninterp spec fn derived_address_of(seeds: Seq<Seq<u8>>, program_id: Seq<u8>) -> Option<
    (Seq<u8>, u8),
>;

/// An executable derivation result, seen as the mathematical one.
pub open spec fn derivation_view(r: Option<(AccountId, u8)>) -> Option<(Seq<u8>, u8)> {
    match r {
        Some(p) => Some((p.0@, p.1)),
        None => None,
    }
}

/// Relies on anchor_lang's `Pubkey::try_find_program_address`: a
/// deterministic, hash-based search for a derived address that is not a
/// valid signing key, returning `None` when the derivation space is
/// exhausted or a seed is out of range; it never panics.
#[verifier::external_body]
fn find_derived_address(seeds: &Vec<Vec<u8>>, program_id: &AccountId) -> (r: Option<
    (AccountId, u8),
>)
    ensures
        derivation_view(r) == derived_address_of(
            seeds@.map_values(|s: Vec<u8>| s@),
            program_id@,
        ),
{
    let seed_slices: Vec<&[u8]> = seeds.iter().map(|s| s.as_slice()).collect();
    let program = anchor_lang::prelude::Pubkey::new_from_array(program_id.bytes);
    anchor_lang::prelude::Pubkey::try_find_program_address(&seed_slices, &program).map(
        |(address, bump)| (AccountId { bytes: address.to_bytes() }, bump),
    )
}

/// The namespace tag of primary wallet records: the bytes of
/// "vokter_wallet".
pub open spec fn wallet_tag() -> Seq<u8> {
    seq![
        118u8,
        111u8,
        107u8,
        116u8,
        101u8,
        114u8,
        95u8,
        119u8,
        97u8,
        108u8,
        108u8,
        101u8,
        116u8,
    ]
}

fn wallet_tag_vec() -> (r: Vec<u8>)
    ensures
        r@ == wallet_tag(),
{
    let v: Vec<u8> = vec![118, 111, 107, 116, 101, 114, 95, 119, 97, 108, 108, 101, 116];
    proof {
        assert(v@ =~= wallet_tag());
    }
    v
}

/// The namespace tag of tenant policy records: the bytes of
/// "tenant_config".
pub open spec fn tenant_tag() -> Seq<u8> {
    seq![116u8, 101u8, 110u8, 97u8, 110u8, 116u8, 95u8, 99u8, 111u8, 110u8, 102u8, 105u8, 103u8]
}

fn tenant_tag_vec() -> (r: Vec<u8>)
    ensures
        r@ == tenant_tag(),
{
    let v: Vec<u8> = vec![116, 101, 110, 97, 110, 116, 95, 99, 111, 110, 102, 105, 103];
    proof {
        assert(v@ =~= tenant_tag());
    }
    v
}

/// The namespace tag of per-asset vault records: the bytes of "spl_vault".
pub open spec fn vault_tag() -> Seq<u8> {
    seq![115u8, 112u8, 108u8, 95u8, 118u8, 97u8, 117u8, 108u8, 116u8]
}

fn vault_tag_vec() -> (r: Vec<u8>)
    ensures
        r@ == vault_tag(),
{
    let v: Vec<u8> = vec![115, 112, 108, 95, 118, 97, 117, 108, 116];
    proof {
        assert(v@ =~= vault_tag());
    }
    v
}

/// Seeds of a primary wallet record: the wallet namespace tag and the owner.
pub open spec fn wallet_seeds(owner: Seq<u8>) -> Seq<Seq<u8>> {
    seq![wallet_tag(), owner]
}

/// Seeds of a tenant policy record: the tenant namespace tag and the tenant
/// identity.
pub open spec fn tenant_seeds(tenant_id: Seq<u8>) -> Seq<Seq<u8>> {
    seq![tenant_tag(), tenant_id]
}

/// Seeds of a per-asset vault record: the vault namespace tag, the owning
/// wallet's address and the mint.
pub open spec fn vault_seeds(wallet: Seq<u8>, mint: Seq<u8>) -> Seq<Seq<u8>> {
    seq![vault_tag(), wallet, mint]
}

/// Derive the address of the primary wallet record bound to `owner`.
pub fn derive_wallet_address(owner: &AccountId, program_id: &AccountId) -> (r: Option<
    (AccountId, u8),
>)
    ensures
        derivation_view(r) == derived_address_of(wallet_seeds(owner@), program_id@),
{
    let mut seeds: Vec<Vec<u8>> = Vec::new();
    seeds.push(wallet_tag_vec());
    seeds.push(owner.to_seed());
    proof {
        assert(seeds@.map_values(|s: Vec<u8>| s@) =~= wallet_seeds(owner@));
    }
    find_derived_address(&seeds, program_id)
}

/// Derive the address of the policy record of tenant `tenant_id`.
pub fn derive_tenant_address(tenant_id: &AccountId, program_id: &AccountId) -> (r: Option<
    (AccountId, u8),
>)
    ensures
        derivation_view(r) == derived_address_of(tenant_seeds(tenant_id@), program_id@),
{
    let mut seeds: Vec<Vec<u8>> = Vec::new();
    seeds.push(tenant_tag_vec());
    seeds.push(tenant_id.to_seed());
    proof {
        assert(seeds@.map_values(|s: Vec<u8>| s@) =~= tenant_seeds(tenant_id@));
    }
    find_derived_address(&seeds, program_id)
}

/// Derive the address of the vault of the (wallet, mint) pair.
pub fn derive_vault_address(wallet: &AccountId, mint: &AccountId, program_id: &AccountId) -> (r:
    Option<(AccountId, u8)>)
    ensures
        derivation_view(r) == derived_address_of(vault_seeds(wallet@, mint@), program_id@),
{
    let mut seeds: Vec<Vec<u8>> = Vec::new();
    seeds.push(vault_tag_vec());
    seeds.push(wallet.to_seed());
    seeds.push(mint.to_seed());
    proof {
        assert(seeds@.map_values(|s: Vec<u8>| s@) =~= vault_seeds(wallet@, mint@));
    }
    find_derived_address(&seeds, program_id)
}

} // verus!
