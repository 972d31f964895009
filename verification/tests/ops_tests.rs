use drift_sdk::address::Address;
use drift_sdk::errors::DriftError;
use drift_sdk::ops::{build_close_position, build_open_position, build_create_account,
    PositionDirection, ProgramSet, CREATE_ACCOUNT_OP, DEPOSIT_COLLATERAL_OP};
use drift_sdk::records::{MarketSlot, MarketsRecord, StateRecord};
use drift_sdk::trade::{calculate_trade_amount, MARKETS_SIZE};

fn addr(n: u64) -> Address {
    Address { w0: n, w1: 2 * n, w2: 0, w3: 1 }
}

fn programs() -> ProgramSet {
    ProgramSet {
        program: addr(1000),
        token_program: addr(1001),
        rent_sysvar: addr(1002),
        system_program: Address::zero(),
    }
}

fn sample_state() -> StateRecord {
    StateRecord {
        admin: addr(1),
        whitelist_mint: Address::zero(),
        collateral_vault: addr(3),
        collateral_vault_authority: addr(4),
        collateral_vault_nonce: 255,
        insurance_vault: addr(5),
        insurance_vault_authority: addr(6),
        insurance_vault_nonce: 254,
        markets: addr(8),
        trade_history: addr(9),
        deposit_history: addr(10),
        funding_payment_history: addr(11),
        funding_rate_history: addr(12),
        liquidation_history: addr(13),
        curve_history: addr(14),
    }
}

fn initialized_markets() -> MarketsRecord {
    let mut m = MarketsRecord::fresh();
    m.slots[0] = MarketSlot { initialized: true, oracle: addr(500) };
    m
}

#[test]
fn trade_amount_formula_exact() {
    // Five-fold leverage net of the leveraged fee: 10_000_000 collateral
    // supports 49_750_000 notional.
    assert_eq!(calculate_trade_amount(10_000_000), 49_750_000);
    assert_eq!(calculate_trade_amount(0), 0);
    // The largest input must not overflow.
    assert_eq!(
        calculate_trade_amount(u64::MAX),
        (u64::MAX as u128) * 5 * 99_500 / 100_000
    );
}

#[test]
fn market_index_zero_accepted_on_fresh_list() {
    let m = MarketsRecord::fresh();
    let slot = m.market_slot(0).unwrap();
    assert!(!slot.initialized);
}

#[test]
fn market_index_at_slot_count_rejected() {
    let m = MarketsRecord::fresh();
    assert_eq!(m.market_slot(64), Err(DriftError::InvalidMarketIndex));
    assert_eq!(m.market_slot(u64::MAX), Err(DriftError::InvalidMarketIndex));
    assert!(m.market_slot(63).is_ok());
}

#[test]
fn open_position_rejects_out_of_range_market() {
    let p = programs();
    let state = sample_state();
    let markets = initialized_markets();
    let r = build_open_position(
        &p, addr(2000), &state, &markets, addr(30), addr(31), addr(32),
        PositionDirection::Long, 1000, 64, None, None, None,
    );
    assert_eq!(r, Err(DriftError::InvalidMarketIndex));
}

#[test]
fn open_position_resolves_oracle_from_slot() {
    let p = programs();
    let state = sample_state();
    let markets = initialized_markets();
    let op = build_open_position(
        &p, addr(2000), &state, &markets, addr(30), addr(31), addr(32),
        PositionDirection::Long, 1000, 0, None, None, None,
    )
    .unwrap();
    assert_eq!(op.accounts.len(), 9);
    assert_eq!(op.accounts[8].address, addr(500));
    assert!(!op.accounts[8].is_writable);
}

#[test]
fn referrer_present_appears_in_list_and_flag() {
    let p = programs();
    let state = sample_state();
    let markets = initialized_markets();
    let referrer = addr(777);
    let op = build_open_position(
        &p, addr(2000), &state, &markets, addr(30), addr(31), addr(32),
        PositionDirection::Short, 1000, 0, Some(42), None, Some(referrer),
    )
    .unwrap();
    // The referrer stands last in the account list, writable, and the
    // payload's referrer flag is set.
    assert_eq!(op.accounts.len(), 10);
    let last = op.accounts.last().unwrap();
    assert_eq!(last.address, referrer);
    assert!(last.is_writable);
    assert!(!last.is_signer);
    assert_eq!(op.payload.len(), 51);
    assert_eq!(op.payload[50], 1);
    // No discount token: its flag is clear and no entry was added for it.
    assert_eq!(op.payload[49], 0);
}

#[test]
fn referrer_absent_sets_neither_entry_nor_flag() {
    let p = programs();
    let state = sample_state();
    let markets = initialized_markets();
    let op = build_open_position(
        &p, addr(2000), &state, &markets, addr(30), addr(31), addr(32),
        PositionDirection::Short, 1000, 0, Some(42), None, None,
    )
    .unwrap();
    assert_eq!(op.accounts.len(), 9);
    assert!(op.accounts.iter().all(|e| e.address != addr(777)));
    assert_eq!(op.payload[50], 0);
}

#[test]
fn discount_token_travels_with_its_flag() {
    let p = programs();
    let state = sample_state();
    let markets = initialized_markets();
    let discount = addr(888);
    let op = build_open_position(
        &p, addr(2000), &state, &markets, addr(30), addr(31), addr(32),
        PositionDirection::Long, 1, 0, None, Some(discount), None,
    )
    .unwrap();
    assert_eq!(op.accounts.len(), 10);
    assert_eq!(op.accounts[9].address, discount);
    assert!(!op.accounts[9].is_writable);
    assert_eq!(op.payload[49], 1);
    assert_eq!(op.payload[50], 0);
}

#[test]
fn close_position_optional_accounts_mirror_open() {
    let p = programs();
    let state = sample_state();
    let markets = initialized_markets();
    let referrer = addr(777);
    let with = build_close_position(
        &p, addr(2000), &state, &markets, addr(30), addr(31), addr(32), 0, None, Some(referrer),
    )
    .unwrap();
    assert_eq!(with.accounts.len(), 10);
    assert_eq!(with.accounts.last().unwrap().address, referrer);
    assert_eq!(with.payload.len(), 18);
    assert_eq!(with.payload[17], 1);
    let without = build_close_position(
        &p, addr(2000), &state, &markets, addr(30), addr(31), addr(32), 0, None, None,
    )
    .unwrap();
    assert_eq!(without.accounts.len(), 9);
    assert_eq!(without.payload[17], 0);
    assert_eq!(
        build_close_position(
            &p, addr(2000), &state, &markets, addr(30), addr(31), addr(32), 64, None, None,
        ),
        Err(DriftError::InvalidMarketIndex)
    );
}

#[test]
fn deposit_payload_exact_bytes() {
    let p = programs();
    let state = sample_state();
    let op = drift_sdk::ops::build_deposit_collateral(
        &p, addr(2000), &state, addr(30), addr(31), 0x0102_0304_0506_0708, addr(33), addr(8),
        addr(34),
    );
    let mut expected = DEPOSIT_COLLATERAL_OP.to_le_bytes().to_vec();
    expected.extend_from_slice(&0x0102_0304_0506_0708u64.to_le_bytes());
    assert_eq!(op.payload, expected);
    assert_eq!(op.accounts.len(), 10);
    assert_eq!(op.accounts[3].address, state.collateral_vault);
    assert_eq!(op.accounts[5].address, p.token_program);
}

#[test]
fn whitelist_account_travels_with_its_payload_flag() {
    let p = programs();
    let wallet = addr(31);
    let user = addr(30);
    let positions = addr(32);
    // Without a whitelist mint: no accompanying account, flag clear.
    let state = sample_state();
    let op = drift_sdk::ops::build_initialize_user(
        &p, addr(2000), &state, wallet, user, 255, positions,
    )
    .unwrap();
    assert_eq!(op.accounts.len(), 6);
    assert_eq!(op.payload.len(), 10);
    assert_eq!(op.payload[8], 255);
    assert_eq!(op.payload[9], 0);
    // With one: the wallet's whitelist token account joins the list and
    // the flag is set, both from the same configuration field.
    let mut with_mint = sample_state();
    with_mint.whitelist_mint = addr(600);
    let op = drift_sdk::ops::build_initialize_user(
        &p, addr(2000), &with_mint, wallet, user, 255, positions,
    )
    .unwrap();
    assert_eq!(op.accounts.len(), 7);
    assert_eq!(op.payload[9], 1);
    let expected = drift_sdk::pda::associated_token_address(&wallet, &addr(600)).unwrap();
    assert_eq!(op.accounts[6].address, expected);
    // The positions identity signs its own creation; the rent sysvar and
    // base program close the primary list.
    assert!(op.accounts[2].is_signer);
    assert_eq!(op.accounts[4].address, p.rent_sysvar);
    assert_eq!(op.accounts[5].address, p.system_program);
}

#[test]
fn create_account_reserves_exact_externally_specified_size() {
    let p = programs();
    let new_account = addr(4000);
    let op = build_create_account(&p, addr(31), new_account, 12345, MARKETS_SIZE, p.program);
    assert_eq!(op.program, Address::zero());
    let mut expected = CREATE_ACCOUNT_OP.to_le_bytes().to_vec();
    expected.extend_from_slice(&12345u64.to_le_bytes());
    expected.extend_from_slice(&MARKETS_SIZE.to_le_bytes());
    expected.extend_from_slice(&p.program.to_byte_vec());
    assert_eq!(op.payload, expected);
    // Both the funder and the new account sign its creation.
    assert!(op.accounts[0].is_signer && op.accounts[1].is_signer);
    assert_eq!(op.accounts[1].address, new_account);
}
