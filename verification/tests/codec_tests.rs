use drift_sdk::address::Address;
use drift_sdk::errors::DriftError;
use drift_sdk::records::{AccountKind, HistoryRecord, MarketSlot, MarketsRecord, Record,
    StateRecord, UserRecord, decode_history, decode_markets, decode_record, decode_state,
    decode_user, encode_history, encode_markets, encode_state, encode_user, HISTORY_BYTES,
    MARKETS_BYTES, STATE_BYTES, USER_BYTES};

fn addr(n: u64) -> Address {
    Address { w0: n, w1: n.wrapping_mul(3), w2: n.wrapping_add(7), w3: !n }
}

fn sample_state() -> StateRecord {
    StateRecord {
        admin: addr(1),
        whitelist_mint: addr(2),
        collateral_vault: addr(3),
        collateral_vault_authority: addr(4),
        collateral_vault_nonce: 250,
        insurance_vault: addr(5),
        insurance_vault_authority: addr(6),
        insurance_vault_nonce: 7,
        markets: addr(8),
        trade_history: addr(9),
        deposit_history: addr(10),
        funding_payment_history: addr(11),
        funding_rate_history: addr(12),
        liquidation_history: addr(13),
        curve_history: addr(14),
    }
}

#[test]
fn address_bytes_roundtrip() {
    let a = addr(0xdead_beef_1234_5678);
    let bytes = a.to_byte_vec();
    assert_eq!(bytes.len(), 32);
    let back = Address::from_bytes(bytes.as_slice());
    assert_eq!(a, back);
}

#[test]
fn state_encode_decode_roundtrip() {
    let s = sample_state();
    let bytes = encode_state(&s);
    assert_eq!(bytes.len(), STATE_BYTES);
    let decoded = decode_state(bytes.as_slice()).unwrap();
    assert_eq!(s, decoded);
}

#[test]
fn state_decode_rejects_wrong_length() {
    let s = sample_state();
    let mut bytes = encode_state(&s);
    bytes.pop();
    assert_eq!(decode_state(bytes.as_slice()), Err(DriftError::DecodeError));
}

#[test]
fn state_decode_rejects_wrong_discriminator() {
    let s = sample_state();
    let mut bytes = encode_state(&s);
    bytes[0] = bytes[0].wrapping_add(1);
    assert_eq!(decode_state(bytes.as_slice()), Err(DriftError::DecodeError));
}

#[test]
fn markets_encode_decode_roundtrip() {
    let mut m = MarketsRecord::fresh();
    assert_eq!(m.slots.len(), 64);
    m.slots[0] = MarketSlot { initialized: true, oracle: addr(42) };
    m.slots[63] = MarketSlot { initialized: true, oracle: addr(99) };
    let bytes = encode_markets(&m);
    assert_eq!(bytes.len(), MARKETS_BYTES);
    let decoded = decode_markets(bytes.as_slice()).unwrap();
    assert_eq!(m, decoded);
}

#[test]
fn markets_decode_rejects_user_bytes() {
    let u = UserRecord {
        authority: addr(1),
        positions: addr(2),
        collateral: 10,
        cumulative_deposits: 10,
        total_fee_paid: 0,
    };
    let bytes = encode_user(&u);
    assert_eq!(decode_markets(bytes.as_slice()), Err(DriftError::DecodeError));
}

#[test]
fn user_encode_decode_roundtrip() {
    let u = UserRecord {
        authority: addr(21),
        positions: addr(22),
        collateral: 10_000_000,
        cumulative_deposits: 10_000_000,
        total_fee_paid: 49_750,
    };
    let bytes = encode_user(&u);
    assert_eq!(bytes.len(), USER_BYTES);
    let decoded = decode_user(bytes.as_slice()).unwrap();
    assert_eq!(u, decoded);
}

#[test]
fn history_roundtrip_and_kind_separation() {
    let h = HistoryRecord { head: 5, last_record_id: 17 };
    let bytes = encode_history(AccountKind::TradeHistory, &h);
    assert_eq!(bytes.len(), HISTORY_BYTES);
    let decoded = decode_history(AccountKind::TradeHistory, bytes.as_slice()).unwrap();
    assert_eq!(h, decoded);
    // The same bytes do not decode under another history kind's tag.
    assert_eq!(
        decode_history(AccountKind::DepositHistory, bytes.as_slice()),
        Err(DriftError::DecodeError)
    );
}

#[test]
fn history_next_record_id() {
    let fresh = HistoryRecord { head: 0, last_record_id: 0 };
    assert_eq!(fresh.next_record_id(), 1);
    let used = HistoryRecord { head: 2, last_record_id: 2 };
    assert_eq!(used.next_record_id(), 3);
}

#[test]
fn record_dispatch_decodes_each_kind() {
    let s = sample_state();
    let rec = decode_record(AccountKind::State, encode_state(&s).as_slice()).unwrap();
    assert!(matches!(rec, Record::State(got) if got == s));

    let m = MarketsRecord::fresh();
    let rec = decode_record(AccountKind::Markets, encode_markets(&m).as_slice()).unwrap();
    assert!(matches!(rec, Record::Markets(got) if got == m));

    let h = HistoryRecord { head: 1, last_record_id: 4 };
    let bytes = encode_history(AccountKind::CurveHistory, &h);
    let rec = decode_record(AccountKind::CurveHistory, bytes.as_slice()).unwrap();
    assert!(matches!(rec, Record::CurveHistory(got) if got == h));

    // A record of one kind never decodes as another.
    assert_eq!(
        decode_record(AccountKind::User, encode_state(&s).as_slice()),
        Err(DriftError::DecodeError)
    );
}
