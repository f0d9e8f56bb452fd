//! Deterministic address derivation.
//!
//! A record's canonical address and the vault's signing authority are
//! both derived from a domain-separation tag plus key material by an
//! external one-way derivation primitive.  The derived address is used
//! to reject caller-supplied record locations that are not canonical,
//! and the derivation seeds double as the credential under which the
//! vault authorizes outgoing transfers.

use vstd::prelude::*;
use vstd::slice::slice_to_vec;

verus! {

/// The address and disambiguation byte that the derivation primitive
/// finds for the given seeds and deriving program, if any.
pub uninterp spec fn spec_find_program_address(seeds: Seq<Seq<u8>>, program_id: Seq<u8>) -> Option<
    (Seq<u8>, u8),
>;

/// Spec-level image of an exec derivation result.
pub open spec fn abs_pda(r: Option<([u8; 32], u8)>) -> Option<(Seq<u8>, u8)> {
    match r {
        Some(p) => Some((p.0@, p.1)),
        None => None,
    }
}

/// Relies on `solana_program::pubkey::Pubkey::try_find_program_address`:
/// the returned address and disambiguation byte are a deterministic
/// function of the seeds and the program id alone, and the search
/// returns `None`, rather than panicking, when no disambiguation byte
/// yields a valid derived address.
#[verifier::external_body]
fn find_program_address(seeds: &Vec<Vec<u8>>, program_id: &[u8; 32]) -> (r: Option<
    ([u8; 32], u8),
>)
    ensures
        abs_pda(r) == spec_find_program_address(seeds.deep_view(), program_id@),
{
    let seed_slices: Vec<&[u8]> = seeds.iter().map(|s| s.as_slice()).collect();
    let pid = solana_program::pubkey::Pubkey::new_from_array(*program_id);
    solana_program::pubkey::Pubkey::try_find_program_address(&seed_slices, &pid).map(
        |p: (solana_program::pubkey::Pubkey, u8)| (p.0.to_bytes(), p.1),
    )
}

/// The ASCII bytes of the tag `"user_vault"`, the domain separator of
/// per-depositor record addresses.
pub open spec fn user_vault_tag() -> Seq<u8> {
    seq![117u8, 115u8, 101u8, 114u8, 95u8, 118u8, 97u8, 117u8, 108u8, 116u8]
}

/// The ASCII bytes of the tag `"vault"`, the domain separator of the
/// vault-wide signing authority.
pub open spec fn vault_tag() -> Seq<u8> {
    seq![118u8, 97u8, 117u8, 108u8, 116u8]
}

/// The seed list that locates one depositor's record under one vault.
pub open spec fn user_vault_seeds(user: Seq<u8>, vault: Seq<u8>) -> Seq<Seq<u8>> {
    seq![user_vault_tag(), user, vault]
}

/// The seed list of the vault-wide signing authority.
pub open spec fn vault_authority_seeds() -> Seq<Seq<u8>> {
    seq![vault_tag()]
}

fn user_vault_tag_bytes() -> (r: Vec<u8>)
    ensures
        r@ == user_vault_tag(),
{
    let mut v: Vec<u8> = Vec::new();
    v.push(117u8);
    v.push(115u8);
    v.push(101u8);
    v.push(114u8);
    v.push(95u8);
    v.push(118u8);
    v.push(97u8);
    v.push(117u8);
    v.push(108u8);
    v.push(116u8);
    proof {
        assert(v@ =~= user_vault_tag());
    }
    v
}

fn vault_tag_bytes() -> (r: Vec<u8>)
    ensures
        r@ == vault_tag(),
{
    let mut v: Vec<u8> = Vec::new();
    v.push(118u8);
    v.push(97u8);
    v.push(117u8);
    v.push(108u8);
    v.push(116u8);
    proof {
        assert(v@ =~= vault_tag());
    }
    v
}

/// The canonical address of one depositor's record under one vault,
/// with its disambiguation byte; `None` in the statistically
/// improbable event that the derivation finds no valid address.
pub fn derive_user_vault_address(user: &[u8; 32], vault: &[u8; 32], program_id: &[u8; 32]) -> (r:
    Option<([u8; 32], u8)>)
    ensures
        abs_pda(r) == spec_find_program_address(user_vault_seeds(user@, vault@), program_id@),
{
    let mut seeds: Vec<Vec<u8>> = Vec::new();
    seeds.push(user_vault_tag_bytes());
    seeds.push(slice_to_vec(user.as_slice()));
    seeds.push(slice_to_vec(vault.as_slice()));
    proof {
        assert(seeds.deep_view() =~~= user_vault_seeds(user@, vault@));
    }
    find_program_address(&seeds, program_id)
}

/// The vault-wide signing authority and its disambiguation byte, the
/// identity under which the vault approves outgoing transfers.
pub fn derive_vault_authority(program_id: &[u8; 32]) -> (r: Option<([u8; 32], u8)>)
    ensures
        abs_pda(r) == spec_find_program_address(vault_authority_seeds(), program_id@),
{
    let mut seeds: Vec<Vec<u8>> = Vec::new();
    seeds.push(vault_tag_bytes());
    proof {
        assert(seeds.deep_view() =~~= vault_authority_seeds());
    }
    find_program_address(&seeds, program_id)
}

} // verus!
