//! Deterministic derivation of account addresses from seed bytes and a
//! program identity.
//!
//! The remote program re-derives the same addresses on its side to
//! validate operations, so cross-process agreement is essential: the
//! derived address is a pure function of the seed list and the program
//! identity, with no input from this process.

use vstd::prelude::*;
use crate::address::{Address, spec_address_from_bytes};
use crate::errors::DriftError;

verus! {

/// The seed list as mathematical byte sequences.
pub open spec fn seeds_view(seeds: Seq<Vec<u8>>) -> Seq<Seq<u8>> {
    seeds.map_values(|s: Vec<u8>| s@)
}

/// What the ledger's address derivation yields for a seed list and a
/// program identity: a 32-byte address with its disambiguation nonce, or
/// nothing when the nonce search space holds no valid candidate. The
/// result depends on the seeds and the program identity alone, so every
/// caller on every machine re-derives the same value.
pub uninterp spec fn pda_of(seeds: Seq<Seq<u8>>, program: Seq<u8>) -> Option<(Seq<u8>, u8)>;

/// What the associated-token derivation yields for a wallet and a mint: a
/// 32-byte address, again a function of its two arguments alone, or
/// nothing in the statistically improbable event that the nonce search
/// space holds no valid candidate.
pub uninterp spec fn ata_of(wallet: Seq<u8>, mint: Seq<u8>) -> Option<Seq<u8>>;

/// Relies on Pubkey::try_find_program_address of solana-sdk: a pure
/// search over disambiguation nonces that returns a 32-byte derived
/// address and the nonce, or None when no nonce yields a valid address
/// (or the seed list breaks the derivation's own limits).
#[verifier::external_body]
fn find_program_address_raw(seeds: &Vec<Vec<u8>>, program: &Vec<u8>) -> (r: Option<
    (Vec<u8>, u8),
>)
    requires
        program@.len() == 32,
    ensures
        (match r {
            Some(p) => pda_of(seeds_view(seeds@), program@) == Some((p.0@, p.1)) && p.0@.len()
                == 32,
            None => pda_of(seeds_view(seeds@), program@) is None,
        }),
{
    let seed_slices: Vec<&[u8]> = seeds.iter().map(|s| s.as_slice()).collect();
    let mut pid_bytes = [0u8; 32];
    pid_bytes.copy_from_slice(program.as_slice());
    let pid = solana_sdk::pubkey::Pubkey::new_from_array(pid_bytes);
    solana_sdk::pubkey::Pubkey::try_find_program_address(&seed_slices, &pid)
        .map(|(a, n)| (a.to_bytes().to_vec(), n))
}

/// Relies on the associated-token derivation of
/// spl-associated-token-account: the account held by `wallet` for `mint`
/// is the program derivation of the seeds (wallet, token program, mint)
/// under the associated-token program, exactly as that crate's address
/// module arranges them. The non-panicking derivation is called so that
/// an exhausted nonce search surfaces as a value.
#[verifier::external_body]
fn associated_token_address_raw(wallet: &Vec<u8>, mint: &Vec<u8>) -> (r: Option<Vec<u8>>)
    requires
        wallet@.len() == 32,
        mint@.len() == 32,
    ensures
        (match r {
            Some(v) => ata_of(wallet@, mint@) == Some(v@) && v@.len() == 32,
            None => ata_of(wallet@, mint@) is None,
        }),
{
    let token_program = spl_token::id().to_bytes();
    spl_token::solana_program::pubkey::Pubkey::try_find_program_address(
        &[wallet.as_slice(), token_program.as_slice(), mint.as_slice()],
        &spl_associated_token_account::id(),
    ).map(|(a, _bump)| a.to_bytes().to_vec())
}

/// Relies on spl_token::ID, the token program's well-known 32-byte
/// address.
#[verifier::external_body]
fn token_program_id_raw() -> (r: Vec<u8>)
    ensures
        r@.len() == 32,
{
    spl_token::ID.to_bytes().to_vec()
}

/// Relies on the rent sysvar's well-known 32-byte address, as re-exported
/// by solana-sdk.
#[verifier::external_body]
fn rent_sysvar_id_raw() -> (r: Vec<u8>)
    ensures
        r@.len() == 32,
{
    solana_sdk::rent::sysvar::ID.to_bytes().to_vec()
}

/// Derive the account address and nonce for a seed list under a program
/// identity. Pure and deterministic; an exhausted nonce search space is
/// reported, never ignored.
pub fn derive_address(seeds: &Vec<Vec<u8>>, program: &Address) -> (r: Result<
    (Address, u8),
    DriftError,
>)
    ensures
        (match pda_of(seeds_view(seeds@), program.byte_seq()) {
            Some(p) => r is Ok && r->Ok_0.0.byte_seq() == p.0 && r->Ok_0.0
                == spec_address_from_bytes(p.0) && r->Ok_0.1 == p.1,
            None => r is Err && r->Err_0 == DriftError::DerivationExhausted,
        }),
{
    let pb = program.to_byte_vec();
    match find_program_address_raw(seeds, &pb) {
        Some((a, n)) => Ok((Address::from_bytes(a.as_slice()), n)),
        None => Err(DriftError::DerivationExhausted),
    }
}

/// Law: derivation is deterministic — identical seed lists and program
/// identities always yield an identical address and nonce.
pub proof fn lemma_derivation_deterministic(
    seeds_a: Seq<Seq<u8>>,
    program_a: Seq<u8>,
    seeds_b: Seq<Seq<u8>>,
    program_b: Seq<u8>,
)
    requires
        seeds_a == seeds_b,
        program_a == program_b,
    ensures
        pda_of(seeds_a, program_a) == pda_of(seeds_b, program_b),
{
}

/// Derive the associated token account address of `wallet` for `mint`,
/// surfacing an exhausted derivation search instead of ignoring it.
pub fn associated_token_address(wallet: &Address, mint: &Address) -> (r: Result<
    Address,
    DriftError,
>)
    ensures
        (match ata_of(wallet.byte_seq(), mint.byte_seq()) {
            Some(v) => r is Ok && r->Ok_0.byte_seq() == v && r->Ok_0 == spec_address_from_bytes(
                v,
            ),
            None => r is Err && r->Err_0 == DriftError::DerivationExhausted,
        }),
{
    let wb = wallet.to_byte_vec();
    let mb = mint.to_byte_vec();
    match associated_token_address_raw(&wb, &mb) {
        Some(ab) => Ok(Address::from_bytes(ab.as_slice())),
        None => Err(DriftError::DerivationExhausted),
    }
}

/// The token program's address, as a library value.
pub fn token_program_address() -> (r: Address) {
    let b = token_program_id_raw();
    Address::from_bytes(b.as_slice())
}

/// The rent sysvar's address, as a library value.
pub fn rent_sysvar_address() -> (r: Address) {
    let b = rent_sysvar_id_raw();
    Address::from_bytes(b.as_slice())
}

/// The seed string under which per-user accounts are derived.
pub open spec fn user_seed() -> Seq<u8> {
    seq![117u8, 115u8, 101u8, 114u8]
}

/// The seed string under which the root configuration account is derived.
pub open spec fn state_seed() -> Seq<u8> {
    seq![
        99u8, 108u8, 101u8, 97u8, 114u8, 105u8, 110u8, 103u8, 95u8, 104u8, 111u8, 117u8,
        115u8, 101u8,
    ]
}

/// The seed string under which the funds-custody account is derived.
pub open spec fn collateral_vault_seed() -> Seq<u8> {
    seq![
        99u8, 111u8, 108u8, 108u8, 97u8, 116u8, 101u8, 114u8, 97u8, 108u8, 95u8, 118u8,
        97u8, 117u8, 108u8, 116u8,
    ]
}

/// The seed string under which the reserve-custody account is derived.
pub open spec fn insurance_vault_seed() -> Seq<u8> {
    seq![
        105u8, 110u8, 115u8, 117u8, 114u8, 97u8, 110u8, 99u8, 101u8, 95u8, 118u8, 97u8,
        117u8, 108u8, 116u8,
    ]
}

/// The bytes of `user_seed`, for building seed lists.
pub fn user_seed_bytes() -> (r: Vec<u8>)
    ensures
        r@ == user_seed(),
{
    let v: Vec<u8> = vec![117u8, 115u8, 101u8, 114u8];
    proof {
        assert(v@ =~= user_seed());
    }
    v
}

/// The bytes of `state_seed`, for building seed lists.
pub fn state_seed_bytes() -> (r: Vec<u8>)
    ensures
        r@ == state_seed(),
{
    let v: Vec<u8> = vec![
        99u8, 108u8, 101u8, 97u8, 114u8, 105u8, 110u8, 103u8, 95u8, 104u8, 111u8, 117u8,
        115u8, 101u8,
    ];
    proof {
        assert(v@ =~= state_seed());
    }
    v
}

/// The bytes of `collateral_vault_seed`, for building seed lists.
pub fn collateral_vault_seed_bytes() -> (r: Vec<u8>)
    ensures
        r@ == collateral_vault_seed(),
{
    let v: Vec<u8> = vec![
        99u8, 111u8, 108u8, 108u8, 97u8, 116u8, 101u8, 114u8, 97u8, 108u8, 95u8, 118u8,
        97u8, 117u8, 108u8, 116u8,
    ];
    proof {
        assert(v@ =~= collateral_vault_seed());
    }
    v
}

/// The bytes of `insurance_vault_seed`, for building seed lists.
pub fn insurance_vault_seed_bytes() -> (r: Vec<u8>)
    ensures
        r@ == insurance_vault_seed(),
{
    let v: Vec<u8> = vec![
        105u8, 110u8, 115u8, 117u8, 114u8, 97u8, 110u8, 99u8, 101u8, 95u8, 118u8, 97u8,
        117u8, 108u8, 116u8,
    ];
    proof {
        assert(v@ =~= insurance_vault_seed());
    }
    v
}

/// Derive the root configuration account's address for a program.
pub fn get_state_pubkey(program: &Address) -> (r: Result<Address, DriftError>)
    ensures
        (match pda_of(seq![state_seed()], program.byte_seq()) {
            Some(p) => r is Ok && r->Ok_0.byte_seq() == p.0 && r->Ok_0
                == spec_address_from_bytes(p.0),
            None => r is Err && r->Err_0 == DriftError::DerivationExhausted,
        }),
{
    let mut seeds: Vec<Vec<u8>> = Vec::new();
    seeds.push(state_seed_bytes());
    proof {
        assert(seeds_view(seeds@) =~= seq![state_seed()]);
    }
    match derive_address(&seeds, program) {
        Ok((a, _n)) => Ok(a),
        Err(e) => Err(e),
    }
}

} // verus!
