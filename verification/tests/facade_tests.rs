use drift_sdk::accounts::DefaultClearingHouseAccount;
use drift_sdk::address::Address;
use drift_sdk::admin::{DefaultClearingHouseAdmin, InitIdentities, RentCosts};
use drift_sdk::errors::DriftError;
use drift_sdk::ops::{PositionDirection, ProgramSet, INITIALIZE_USER_OP, OPEN_POSITION_OP};
use drift_sdk::pda::{derive_address, user_seed_bytes};
use drift_sdk::records::{MarketSlot, MarketsRecord, StateRecord, UserRecord, encode_markets,
    encode_state, encode_user};
use drift_sdk::token::unpack_token_account;
use drift_sdk::trade::MARKETS_SIZE;
use drift_sdk::user::ClearingHouseUser;

fn addr(n: u64) -> Address {
    Address { w0: n, w1: 0, w2: n, w3: 0 }
}

fn programs() -> ProgramSet {
    ProgramSet {
        program: addr(1000),
        token_program: addr(1001),
        rent_sysvar: addr(1002),
        system_program: Address::zero(),
    }
}

fn sample_state() -> StateRecord {
    StateRecord {
        admin: addr(1),
        whitelist_mint: addr(0),
        collateral_vault: addr(3),
        collateral_vault_authority: addr(4),
        collateral_vault_nonce: 255,
        insurance_vault: addr(5),
        insurance_vault_authority: addr(6),
        insurance_vault_nonce: 254,
        markets: addr(8),
        trade_history: addr(9),
        deposit_history: addr(10),
        funding_payment_history: addr(11),
        funding_rate_history: addr(12),
        liquidation_history: addr(13),
        curve_history: addr(14),
    }
}

fn primed_user(wallet: Address) -> ClearingHouseUser {
    let state = sample_state();
    let mut accounts = DefaultClearingHouseAccount::new(addr(100), &state);
    accounts
        .state
        .get_data(false, Some(Ok(encode_state(&state))))
        .unwrap();
    let mut markets = MarketsRecord::fresh();
    markets.slots[0] = MarketSlot { initialized: true, oracle: addr(500) };
    accounts
        .markets
        .get_data(false, Some(Ok(encode_markets(&markets))))
        .unwrap();
    ClearingHouseUser::new(programs(), wallet, accounts)
}

#[test]
fn user_key_is_derived_once_and_cached() {
    let wallet = addr(42);
    let mut user = primed_user(wallet);
    let first = user.user_account_pubkey_and_nonce().unwrap();
    let second = user.user_account_pubkey_and_nonce().unwrap();
    assert_eq!(first, second);
    let independent =
        derive_address(&vec![user_seed_bytes(), wallet.to_byte_vec()], &programs().program)
            .unwrap();
    assert_eq!(first, independent);
}

#[test]
fn user_account_cache_follows_get_semantics() {
    let wallet = addr(42);
    let mut user = primed_user(wallet);
    let rec = UserRecord {
        authority: wallet,
        positions: addr(60),
        collateral: 11,
        cumulative_deposits: 11,
        total_fee_paid: 0,
    };
    let got = user.user_account(false, Some(Ok(encode_user(&rec)))).unwrap();
    assert_eq!(got, rec);
    // Cached now: an unforced read consumes nothing and returns the value.
    let again = user.user_account(false, None).unwrap();
    assert_eq!(again, rec);
    // A forced read that fails leaves the cache untouched.
    let r = user.user_account(true, Some(Err(DriftError::TransportError)));
    assert_eq!(r, Err(DriftError::TransportError));
    assert_eq!(user.user_account(false, None).unwrap(), rec);
}

#[test]
fn create_and_fund_is_one_submission() {
    let wallet = addr(42);
    let mut user = primed_user(wallet);
    let positions = addr(61);
    let (submission, user_pubkey) = user
        .initialize_user_account_and_deposit_collateral_submission(positions, 10_000_000, addr(62))
        .unwrap();
    // Both effects travel in one atomic batch, in create-then-fund order,
    // co-signed by the freshly generated positions identity.
    assert_eq!(submission.operations.len(), 2);
    assert_eq!(submission.fee_payer, wallet);
    assert_eq!(submission.signers, vec![wallet, positions]);
    assert_eq!(
        submission.operations[0].payload[0..8],
        INITIALIZE_USER_OP.to_le_bytes()
    );
    // The deposit references the same positions list the first operation
    // creates.
    assert_eq!(submission.operations[1].accounts[7].address, positions);
    let independent =
        derive_address(&vec![user_seed_bytes(), wallet.to_byte_vec()], &programs().program)
            .unwrap();
    assert_eq!(user_pubkey, independent.0);
}

#[test]
fn rejected_submission_leaves_caches_unchanged() {
    let wallet = addr(42);
    let mut user = primed_user(wallet);
    let state_before = format!("{:?}", user.accounts.state.cached_record());
    let user_cache_before = user.user_account.clone();
    let (submission, _pubkey) = user
        .initialize_user_account_and_deposit_collateral_submission(addr(61), 10_000_000, addr(62))
        .unwrap();
    // Simulate the ledger rejecting the batch: the submission is dropped.
    drop(submission);
    // Neither effect was applied locally: the caches show the
    // pre-submission state.
    assert_eq!(format!("{:?}", user.accounts.state.cached_record()), state_before);
    assert_eq!(user.user_account, user_cache_before);
}

#[test]
fn open_position_submission_reads_caches() {
    let wallet = addr(42);
    let mut user = primed_user(wallet);
    let rec = UserRecord {
        authority: wallet,
        positions: addr(60),
        collateral: 11,
        cumulative_deposits: 11,
        total_fee_paid: 0,
    };
    user.user_account(false, Some(Ok(encode_user(&rec)))).unwrap();
    let s = user
        .open_position_submission(PositionDirection::Long, 49_750_000, 0, None, None, None)
        .unwrap();
    assert_eq!(s.operations.len(), 1);
    assert_eq!(s.signers, vec![wallet]);
    let op = &s.operations[0];
    assert_eq!(op.payload[0..8], OPEN_POSITION_OP.to_le_bytes());
    assert_eq!(op.accounts[8].address, addr(500));
    assert_eq!(op.accounts[4].address, addr(60));
    // An out-of-range market index is rejected before any network call.
    assert_eq!(
        user.open_position_submission(PositionDirection::Long, 1, 64, None, None, None),
        Err(DriftError::InvalidMarketIndex)
    );
}

#[test]
fn pushed_market_update_reaches_the_builder() {
    let wallet = addr(42);
    let mut user = primed_user(wallet);
    let rec = UserRecord {
        authority: wallet,
        positions: addr(60),
        collateral: 11,
        cumulative_deposits: 11,
        total_fee_paid: 0,
    };
    user.user_account(false, Some(Ok(encode_user(&rec)))).unwrap();
    // A push lands a market list whose first slot names another price
    // reference; the builder reads the warmed cache without forcing.
    let mut updated = MarketsRecord::fresh();
    updated.slots[0] = MarketSlot { initialized: true, oracle: addr(501) };
    user.accounts
        .markets
        .apply_push(encode_markets(&updated).as_slice())
        .unwrap();
    let s = user
        .open_position_submission(PositionDirection::Long, 1, 0, None, None, None)
        .unwrap();
    assert_eq!(s.operations[0].accounts[8].address, addr(501));
}

#[test]
fn withdraw_and_delete_submissions_read_user_cache() {
    let wallet = addr(42);
    let mut user = primed_user(wallet);
    let rec = UserRecord {
        authority: wallet,
        positions: addr(60),
        collateral: 11,
        cumulative_deposits: 11,
        total_fee_paid: 0,
    };
    user.user_account(false, Some(Ok(encode_user(&rec)))).unwrap();
    let w = user.withdraw_collateral_submission(11, addr(62)).unwrap();
    assert_eq!(w.operations.len(), 1);
    assert_eq!(w.operations[0].accounts.len(), 13);
    assert_eq!(w.operations[0].accounts[4].address, sample_state().collateral_vault_authority);
    let d = user.delete_user_submission().unwrap();
    assert_eq!(d.operations.len(), 1);
    assert_eq!(d.operations[0].accounts.len(), 3);
    assert_eq!(d.operations[0].accounts[1].address, addr(60));
}

#[test]
fn initialize_state_authorities_match_rederivation() {
    let admin = DefaultClearingHouseAdmin::new(programs(), addr(42));
    let identities = InitIdentities {
        markets: addr(70),
        deposit_history: addr(71),
        funding_payment_history: addr(72),
        trade_history: addr(73),
        liquidation_history: addr(74),
        funding_rate_history: addr(75),
        curve_history: addr(76),
    };
    let rents = RentCosts {
        markets: 1,
        deposit_history: 2,
        funding_payment_history: 3,
        trade_history: 4,
        liquidation_history: 5,
        funding_rate_history: 6,
        curve_history: 7,
    };
    let (first, second) = admin
        .initialize_clearing_house_submissions(addr(90), true, false, &identities, &rents)
        .unwrap();
    assert_eq!(first.operations.len(), 2);
    assert_eq!(second.operations.len(), 7);
    assert_eq!(first.signers, vec![addr(42), addr(70)]);
    let init = &first.operations[1];
    // The funds-custody authority placed in the operation equals the
    // address independently re-derived from the custody account's bytes,
    // and likewise for the reserve custody.
    let collateral_vault = init.accounts[3].address;
    let (expected_cv_auth, _n) =
        derive_address(&vec![collateral_vault.to_byte_vec()], &programs().program).unwrap();
    assert_eq!(init.accounts[4].address, expected_cv_auth);
    let insurance_vault = init.accounts[5].address;
    let (expected_iv_auth, _n) =
        derive_address(&vec![insurance_vault.to_byte_vec()], &programs().program).unwrap();
    assert_eq!(init.accounts[6].address, expected_iv_auth);
    // The market list is created with exactly its externally-specified
    // size before the state initialization runs.
    let create = &first.operations[0];
    assert_eq!(create.payload[16..24], MARKETS_SIZE.to_le_bytes());
    // An existing state account refuses initialization outright.
    assert_eq!(
        admin.initialize_clearing_house_submissions(addr(90), true, true, &identities, &rents),
        Err(DriftError::AlreadyInitialized)
    );
}

#[test]
fn initialize_market_checks_slot_state() {
    let admin = DefaultClearingHouseAdmin::new(programs(), addr(42));
    let state = sample_state();
    let mut markets = MarketsRecord::fresh();
    let s = admin
        .initialize_market_submission(addr(100), &state, &markets, 0, addr(500), 10, 10, 3600, 1000)
        .unwrap();
    assert_eq!(s.operations.len(), 1);
    assert_eq!(s.operations[0].accounts.len(), 4);
    assert_eq!(s.operations[0].accounts[3].address, addr(500));
    markets.slots[0] = MarketSlot { initialized: true, oracle: addr(500) };
    assert_eq!(
        admin.initialize_market_submission(
            addr(100), &state, &markets, 0, addr(500), 10, 10, 3600, 1000
        ),
        Err(DriftError::AlreadyInitialized)
    );
    assert_eq!(
        admin.initialize_market_submission(
            addr(100), &state, &markets, 64, addr(500), 10, 10, 3600, 1000
        ),
        Err(DriftError::InvalidMarketIndex)
    );
}

#[test]
fn token_account_unpack_reads_real_layout() {
    let mint = addr(7);
    let owner = addr(9);
    let mut data = vec![0u8; 165];
    data[0..32].copy_from_slice(&mint.to_byte_vec());
    data[32..64].copy_from_slice(&owner.to_byte_vec());
    data[64..72].copy_from_slice(&10_000_000u64.to_le_bytes());
    data[108] = 1;
    let view = unpack_token_account(&data).unwrap();
    assert_eq!(view.mint, mint);
    assert_eq!(view.owner, owner);
    assert_eq!(view.amount, 10_000_000);
    // Any other length is refused.
    assert!(unpack_token_account(&vec![0u8; 164]).is_none());
    // An uninitialized record is refused.
    let mut uninit = data.clone();
    uninit[108] = 0;
    assert!(unpack_token_account(&uninit).is_none());
}
