//! Reading token-account records held by the ledger's token program.

use vstd::prelude::*;
use vstd::bytes::spec_u64_from_le_bytes;
use crate::address::Address;

verus! {

/// A read-only view of a token account: its mint, its owner, and the
/// amount of tokens it holds.
#[derive(Clone, Copy, PartialEq, Eq, Structural, Debug)]
pub struct TokenAccountView {
    pub mint: Address,
    pub owner: Address,
    pub amount: u64,
}

/// Relies on spl_token's Account::unpack: a token account record is
/// exactly 165 bytes, with the mint at bytes 0..32, the owner at 32..64
/// and the amount little-endian at 64..72; unpack refuses any other
/// length and every uninitialized or malformed record.
#[verifier::external_body]
fn unpack_token_account_raw(data: &Vec<u8>) -> (r: Option<(Vec<u8>, Vec<u8>, u64)>)
    ensures
        r is Some ==> data@.len() == 165 && r->Some_0.0@ == data@.subrange(0, 32)
            && r->Some_0.1@ == data@.subrange(32, 64) && r->Some_0.2 == spec_u64_from_le_bytes(
            data@.subrange(64, 72),
        ),
        data@.len() != 165 ==> r is None,
{
    match <spl_token::state::Account as spl_token::solana_program::program_pack::Pack>::unpack(
        data.as_slice(),
    ) {
        Ok(a) => Some((a.mint.to_bytes().to_vec(), a.owner.to_bytes().to_vec(), a.amount)),
        Err(_) => None,
    }
}

/// Decode a fetched token-account record into a library view. Only a
/// record of the exact documented length and shape yields a view, and
/// its fields are read from their fixed offsets.
pub fn unpack_token_account(data: &Vec<u8>) -> (r: Option<TokenAccountView>)
    ensures
        r is Some ==> data@.len() == 165 && r->Some_0.mint.byte_seq() == data@.subrange(0, 32)
            && r->Some_0.owner.byte_seq() == data@.subrange(32, 64) && r->Some_0.amount
            == spec_u64_from_le_bytes(data@.subrange(64, 72)),
        data@.len() != 165 ==> r is None,
{
    match unpack_token_account_raw(data) {
        Some((m, o, a)) => Some(
            TokenAccountView {
                mint: Address::from_bytes(m.as_slice()),
                owner: Address::from_bytes(o.as_slice()),
                amount: a,
            },
        ),
        None => None,
    }
}

} // verus!
