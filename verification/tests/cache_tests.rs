use base64::Engine;
use drift_sdk::accounts::{AccountConsumer, DefaultClearingHouseAccount};
use drift_sdk::address::Address;
use drift_sdk::cache::{AccountHandle, should_retry_read, should_retry_unsubscribe};
use drift_sdk::errors::DriftError;
use drift_sdk::records::{AccountKind, HistoryRecord, Record, StateRecord, UserRecord,
    encode_history, encode_state, encode_user};

fn addr(n: u64) -> Address {
    Address { w0: n, w1: 0, w2: 0, w3: n }
}

fn sample_state() -> StateRecord {
    StateRecord {
        admin: addr(1),
        whitelist_mint: addr(0),
        collateral_vault: addr(3),
        collateral_vault_authority: addr(4),
        collateral_vault_nonce: 255,
        insurance_vault: addr(5),
        insurance_vault_authority: addr(6),
        insurance_vault_nonce: 254,
        markets: addr(8),
        trade_history: addr(9),
        deposit_history: addr(10),
        funding_payment_history: addr(11),
        funding_rate_history: addr(12),
        liquidation_history: addr(13),
        curve_history: addr(14),
    }
}

fn user_handle() -> AccountHandle {
    AccountHandle::new(AccountKind::User, addr(50), String::from("User"))
}

fn user_bytes(fee: u64) -> Vec<u8> {
    encode_user(&UserRecord {
        authority: addr(1),
        positions: addr(2),
        collateral: 5,
        cumulative_deposits: 5,
        total_fee_paid: fee,
    })
}

#[test]
fn get_unforced_fetches_only_when_empty() {
    let mut h = user_handle();
    assert!(h.needs_fetch(false));
    h.get_data(false, Some(Ok(user_bytes(1)))).unwrap();
    // A value is cached now: an unforced get consumes no read and keeps it.
    assert!(!h.needs_fetch(false));
    h.get_data(false, None).unwrap();
    let rec = h.cached_record().unwrap();
    assert!(matches!(rec, Record::User(u) if u.total_fee_paid == 1));
}

#[test]
fn get_forced_always_reads_and_overwrites() {
    let mut h = user_handle();
    h.get_data(false, Some(Ok(user_bytes(1)))).unwrap();
    // Even with a cached value, force demands a read and replaces the cache.
    assert!(h.needs_fetch(true));
    h.get_data(true, Some(Ok(user_bytes(2)))).unwrap();
    let rec = h.cached_record().unwrap();
    assert!(matches!(rec, Record::User(u) if u.total_fee_paid == 2));
}

#[test]
fn get_transport_failure_keeps_cache() {
    let mut h = user_handle();
    h.get_data(false, Some(Ok(user_bytes(1)))).unwrap();
    let r = h.get_data(true, Some(Err(DriftError::TransportError)));
    assert_eq!(r, Err(DriftError::TransportError));
    let rec = h.cached_record().unwrap();
    assert!(matches!(rec, Record::User(u) if u.total_fee_paid == 1));
}

#[test]
fn push_with_mismatched_discriminator_is_dropped() {
    let mut h = user_handle();
    h.subscribe();
    h.get_data(false, Some(Ok(user_bytes(1)))).unwrap();
    // A pushed update carrying another record type's discriminator must
    // neither replace the cache nor tear down the subscription.
    let wrong = encode_state(&sample_state());
    assert_eq!(h.apply_push(wrong.as_slice()), Err(DriftError::DecodeError));
    assert!(h.is_subscribed());
    assert!(matches!(h.cached_record().unwrap(), Record::User(u) if u.total_fee_paid == 1));
    // The next valid push still lands.
    h.apply_push(user_bytes(9).as_slice()).unwrap();
    assert!(matches!(h.cached_record().unwrap(), Record::User(u) if u.total_fee_paid == 9));
}

#[test]
fn push_replaces_cache_without_force() {
    let mut h = user_handle();
    h.get_data(false, Some(Ok(user_bytes(1)))).unwrap();
    h.apply_push(user_bytes(7).as_slice()).unwrap();
    assert!(matches!(h.cached_record().unwrap(), Record::User(u) if u.total_fee_paid == 7));
}

#[test]
fn push_encoded_decodes_base64_payloads() {
    let mut h = user_handle();
    let payload = base64::engine::general_purpose::STANDARD.encode(user_bytes(3));
    h.apply_push_encoded(payload.as_str()).unwrap();
    assert!(matches!(h.cached_record().unwrap(), Record::User(u) if u.total_fee_paid == 3));
    // Text that is not base64 counts as a decode failure of that message.
    assert_eq!(h.apply_push_encoded("!!not-base64!!"), Err(DriftError::DecodeError));
    assert!(matches!(h.cached_record().unwrap(), Record::User(u) if u.total_fee_paid == 3));
}

#[test]
fn unsubscribe_is_idempotent() {
    let mut h = user_handle();
    h.subscribe();
    assert!(h.is_subscribed());
    h.unsubscribe(true).unwrap();
    assert!(!h.is_subscribed());
    // The second call succeeds trivially and changes nothing.
    h.unsubscribe(true).unwrap();
    assert!(!h.is_subscribed());
    // Even with a failing transport, an unsubscribed handle answers Ok.
    h.unsubscribe(false).unwrap();
    assert!(!h.is_subscribed());
}

#[test]
fn unsubscribe_send_failure_keeps_subscription() {
    let mut h = user_handle();
    h.subscribe();
    assert_eq!(h.unsubscribe(false), Err(DriftError::TransportError));
    assert!(h.is_subscribed());
    h.unsubscribe(true).unwrap();
    assert!(!h.is_subscribed());
}

#[test]
fn subscribe_is_idempotent() {
    let mut h = user_handle();
    // The first registration asks for a channel; the second does not.
    assert!(h.subscribe());
    assert!(!h.subscribe());
    assert!(h.is_subscribed());
}

#[test]
fn account_set_tracks_addresses_from_state() {
    let state = sample_state();
    let set = DefaultClearingHouseAccount::new(addr(100), &state);
    assert_eq!(set.state.pubkey(), addr(100));
    assert_eq!(set.markets.pubkey(), state.markets);
    assert_eq!(set.trade_history.pubkey(), state.trade_history);
    assert_eq!(set.deposit_history.pubkey(), state.deposit_history);
    assert_eq!(set.funding_payment_history.pubkey(), state.funding_payment_history);
    assert_eq!(set.funding_rate_history.pubkey(), state.funding_rate_history);
    assert_eq!(set.curve_history.pubkey(), state.curve_history);
    assert_eq!(set.liquidation_history.pubkey(), state.liquidation_history);
    assert_eq!(set.markets.get_name().as_str(), "Markets");
}

#[test]
fn account_set_subscribe_dispatch_is_idempotent_per_handle() {
    let state = sample_state();
    let mut set = DefaultClearingHouseAccount::new(addr(100), &state);
    let opened = set.subscribe(AccountConsumer::MarketsConsumer);
    assert_eq!(opened, Some(state.markets));
    assert!(set.markets.is_subscribed());
    assert!(!set.state.is_subscribed());
    // Registering the same consumer again opens nothing.
    assert_eq!(set.subscribe(AccountConsumer::MarketsConsumer), None);
}

#[test]
fn account_set_unsubscribe_isolated_per_handle() {
    let state = sample_state();
    let mut set = DefaultClearingHouseAccount::new(addr(100), &state);
    set.subscribe(AccountConsumer::MarketsConsumer);
    set.subscribe(AccountConsumer::TradeHistoryConsumer);
    // One stuck handle fails on its own; the other still comes down.
    assert_eq!(
        set.unsubscribe(AccountConsumer::MarketsConsumer, false),
        Err(DriftError::TransportError)
    );
    assert!(set.markets.is_subscribed());
    set.unsubscribe(AccountConsumer::TradeHistoryConsumer, true).unwrap();
    assert!(!set.trade_history.is_subscribed());
    set.unsubscribe(AccountConsumer::MarketsConsumer, true).unwrap();
    assert!(!set.markets.is_subscribed());
}

#[test]
fn retry_bounds_match_policy() {
    // Reads: three attempts in all, four seconds apart.
    assert!(should_retry_read(0));
    assert!(should_retry_read(2));
    assert!(!should_retry_read(3));
    // Unsubscribes: the initial try plus two retries.
    assert!(should_retry_unsubscribe(0));
    assert!(should_retry_unsubscribe(2));
    assert!(!should_retry_unsubscribe(3));
}

#[test]
fn history_push_keeps_cache_warm() {
    let state = sample_state();
    let mut set = DefaultClearingHouseAccount::new(addr(100), &state);
    let h = HistoryRecord { head: 0, last_record_id: 0 };
    let bytes = encode_history(AccountKind::TradeHistory, &h);
    set.trade_history.apply_push(bytes.as_slice()).unwrap();
    assert!(matches!(
        set.trade_history.cached_record().unwrap(),
        Record::TradeHistory(got) if got.next_record_id() == 1
    ));
}
