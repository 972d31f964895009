use drift_sdk::address::Address;
use drift_sdk::errors::DriftError;
use drift_sdk::pda::{associated_token_address, derive_address, get_state_pubkey,
    state_seed_bytes, user_seed_bytes};
use solana_sdk::pubkey::Pubkey;

fn addr(n: u64) -> Address {
    Address { w0: n, w1: n + 1, w2: n + 2, w3: n + 3 }
}

#[test]
fn derive_is_deterministic() {
    let program = addr(7);
    let seeds = vec![user_seed_bytes(), addr(11).to_byte_vec()];
    let first = derive_address(&seeds, &program).unwrap();
    let second = derive_address(&seeds, &program).unwrap();
    assert_eq!(first, second);
}

#[test]
fn derive_differs_for_different_seeds() {
    let program = addr(7);
    let a = derive_address(&vec![user_seed_bytes(), addr(11).to_byte_vec()], &program).unwrap();
    let b = derive_address(&vec![user_seed_bytes(), addr(12).to_byte_vec()], &program).unwrap();
    assert_ne!(a.0, b.0);
}

#[test]
fn derive_matches_independent_ledger_derivation() {
    let program = addr(99);
    let wallet = addr(5);
    let seeds = vec![user_seed_bytes(), wallet.to_byte_vec()];
    let (derived, nonce) = derive_address(&seeds, &program).unwrap();

    let pid = Pubkey::new_from_array(program.to_byte_vec().try_into().unwrap());
    let wallet_bytes = wallet.to_byte_vec();
    let (expected, expected_nonce) =
        Pubkey::find_program_address(&[b"user", wallet_bytes.as_slice()], &pid);
    assert_eq!(derived.to_byte_vec(), expected.to_bytes().to_vec());
    assert_eq!(nonce, expected_nonce);
}

#[test]
fn derive_rejects_oversized_seed_list() {
    // The derivation search space admits at most a fixed number of seeds;
    // beyond it no nonce exists and exhaustion is reported.
    let program = addr(1);
    let seeds: Vec<Vec<u8>> = (0..20).map(|i: u8| vec![i]).collect();
    assert_eq!(
        derive_address(&seeds, &program),
        Err(DriftError::DerivationExhausted)
    );
}

#[test]
fn state_pubkey_matches_seed_derivation() {
    let program = addr(77);
    let via_helper = get_state_pubkey(&program).unwrap();
    let (via_seeds, _nonce) = derive_address(&vec![state_seed_bytes()], &program).unwrap();
    assert_eq!(via_helper, via_seeds);
}

#[test]
fn associated_token_address_is_deterministic_and_real() {
    let wallet = addr(3);
    let mint = addr(4);
    let a = associated_token_address(&wallet, &mint).unwrap();
    let b = associated_token_address(&wallet, &mint).unwrap();
    assert_eq!(a, b);

    let w = spl_token::solana_program::pubkey::Pubkey::new_from_array(
        wallet.to_byte_vec().try_into().unwrap(),
    );
    let m = spl_token::solana_program::pubkey::Pubkey::new_from_array(
        mint.to_byte_vec().try_into().unwrap(),
    );
    #[allow(deprecated)]
    let expected = spl_associated_token_account::get_associated_token_address(&w, &m);
    assert_eq!(a.to_byte_vec(), expected.to_bytes().to_vec());
}
