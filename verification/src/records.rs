//! Typed account records and their discriminator-tagged binary format.
//!
//! Every record starts with an eight-byte little-endian discriminator.
//! Decoding fails closed: a record is returned only when the length and the
//! discriminator both match the expected account kind.

use vstd::prelude::*;
use vstd::bytes::*;
use crate::address::{Address, spec_address_from_bytes};
use crate::codec::{read_u8, read_u64_le, read_u128_le, read_address, push_u8, push_u64_le,
    push_u128_le, push_address};
use crate::errors::DriftError;

verus! {

/// Discriminator of the root configuration record.
pub const STATE_TAG: u64 = 0x5354415445;

/// Discriminator of the market-list record.
pub const MARKETS_TAG: u64 = 0x4d41524b455453;

/// Discriminator of the trade history record.
pub const TRADE_HISTORY_TAG: u64 = 0x5448495354;

/// Discriminator of the deposit history record.
pub const DEPOSIT_HISTORY_TAG: u64 = 0x4448495354;

/// Discriminator of the funding-payment history record.
pub const FUNDING_PAYMENT_HISTORY_TAG: u64 = 0x4650485354;

/// Discriminator of the funding-rate history record.
pub const FUNDING_RATE_HISTORY_TAG: u64 = 0x4652485354;

/// Discriminator of the curve history record.
pub const CURVE_HISTORY_TAG: u64 = 0x4348495354;

/// Discriminator of the liquidation history record.
pub const LIQUIDATION_HISTORY_TAG: u64 = 0x4c48495354;

/// Discriminator of the per-user record.
pub const USER_TAG: u64 = 0x55534552;

/// Byte length of an encoded root configuration record.
pub const STATE_BYTES: usize = 426;

/// Byte length of an encoded market-list record.
pub const MARKETS_BYTES: usize = 2120;

/// Byte length of an encoded history record.
pub const HISTORY_BYTES: usize = 24;

/// Byte length of an encoded per-user record.
pub const USER_BYTES: usize = 112;

/// Number of market slots in a market-list record.
pub const MARKET_SLOT_COUNT: usize = 64;

/// The account kinds a façade tracks, one per tracked account type.
#[derive(Clone, Copy, PartialEq, Eq, Structural, Debug)]
pub enum AccountKind {
    State,
    Markets,
    TradeHistory,
    DepositHistory,
    FundingPaymentHistory,
    FundingRateHistory,
    CurveHistory,
    LiquidationHistory,
    User,
}

impl AccountKind {
    /// The discriminator that records of this kind carry.
    pub open spec fn spec_tag(self) -> u64 {
        match self {
            AccountKind::State => STATE_TAG,
            AccountKind::Markets => MARKETS_TAG,
            AccountKind::TradeHistory => TRADE_HISTORY_TAG,
            AccountKind::DepositHistory => DEPOSIT_HISTORY_TAG,
            AccountKind::FundingPaymentHistory => FUNDING_PAYMENT_HISTORY_TAG,
            AccountKind::FundingRateHistory => FUNDING_RATE_HISTORY_TAG,
            AccountKind::CurveHistory => CURVE_HISTORY_TAG,
            AccountKind::LiquidationHistory => LIQUIDATION_HISTORY_TAG,
            AccountKind::User => USER_TAG,
        }
    }

    pub fn tag(&self) -> (r: u64)
        ensures
            r == self.spec_tag(),
    {
        match self {
            AccountKind::State => STATE_TAG,
            AccountKind::Markets => MARKETS_TAG,
            AccountKind::TradeHistory => TRADE_HISTORY_TAG,
            AccountKind::DepositHistory => DEPOSIT_HISTORY_TAG,
            AccountKind::FundingPaymentHistory => FUNDING_PAYMENT_HISTORY_TAG,
            AccountKind::FundingRateHistory => FUNDING_RATE_HISTORY_TAG,
            AccountKind::CurveHistory => CURVE_HISTORY_TAG,
            AccountKind::LiquidationHistory => LIQUIDATION_HISTORY_TAG,
            AccountKind::User => USER_TAG,
        }
    }

    /// Whether records of this kind are history logs.
    pub open spec fn is_history(self) -> bool {
        match self {
            AccountKind::TradeHistory | AccountKind::DepositHistory
                | AccountKind::FundingPaymentHistory | AccountKind::FundingRateHistory
                | AccountKind::CurveHistory | AccountKind::LiquidationHistory => true,
            _ => false,
        }
    }
}

/// The root configuration record of the remote program: the custody
/// addresses and authorities, the market list, and the history logs.
#[derive(Clone, Copy, PartialEq, Eq, Structural, Debug)]
pub struct StateRecord {
    pub admin: Address,
    pub whitelist_mint: Address,
    pub collateral_vault: Address,
    pub collateral_vault_authority: Address,
    pub collateral_vault_nonce: u8,
    pub insurance_vault: Address,
    pub insurance_vault_authority: Address,
    pub insurance_vault_nonce: u8,
    pub markets: Address,
    pub trade_history: Address,
    pub deposit_history: Address,
    pub funding_payment_history: Address,
    pub funding_rate_history: Address,
    pub liquidation_history: Address,
    pub curve_history: Address,
}

/// The bytes that encode `s`: the discriminator, then each field in
/// declaration order.
pub open spec fn spec_state_to_bytes(s: StateRecord) -> Seq<u8> {
    spec_u64_to_le_bytes(STATE_TAG) + s.admin.byte_seq() + s.whitelist_mint.byte_seq()
        + s.collateral_vault.byte_seq() + s.collateral_vault_authority.byte_seq()
        + seq![s.collateral_vault_nonce] + s.insurance_vault.byte_seq()
        + s.insurance_vault_authority.byte_seq() + seq![s.insurance_vault_nonce]
        + s.markets.byte_seq() + s.trade_history.byte_seq() + s.deposit_history.byte_seq()
        + s.funding_payment_history.byte_seq() + s.funding_rate_history.byte_seq()
        + s.liquidation_history.byte_seq() + s.curve_history.byte_seq()
}

/// The record whose fields are read from `b` at their fixed offsets.
pub open spec fn spec_state_from_bytes(b: Seq<u8>) -> StateRecord
    recommends
        b.len() == STATE_BYTES,
{
    StateRecord {
        admin: spec_address_from_bytes(b.subrange(8, 40)),
        whitelist_mint: spec_address_from_bytes(b.subrange(40, 72)),
        collateral_vault: spec_address_from_bytes(b.subrange(72, 104)),
        collateral_vault_authority: spec_address_from_bytes(b.subrange(104, 136)),
        collateral_vault_nonce: b[136],
        insurance_vault: spec_address_from_bytes(b.subrange(137, 169)),
        insurance_vault_authority: spec_address_from_bytes(b.subrange(169, 201)),
        insurance_vault_nonce: b[201],
        markets: spec_address_from_bytes(b.subrange(202, 234)),
        trade_history: spec_address_from_bytes(b.subrange(234, 266)),
        deposit_history: spec_address_from_bytes(b.subrange(266, 298)),
        funding_payment_history: spec_address_from_bytes(b.subrange(298, 330)),
        funding_rate_history: spec_address_from_bytes(b.subrange(330, 362)),
        liquidation_history: spec_address_from_bytes(b.subrange(362, 394)),
        curve_history: spec_address_from_bytes(b.subrange(394, 426)),
    }
}

/// Encoding a root configuration record and reading it back yields the
/// same record, and the encoding carries the expected length and tag.
pub proof fn lemma_state_roundtrip(s: StateRecord)
    ensures
        spec_state_to_bytes(s).len() == STATE_BYTES,
        spec_u64_from_le_bytes(spec_state_to_bytes(s).subrange(0, 8)) == STATE_TAG,
        spec_state_from_bytes(spec_state_to_bytes(s)) == s,
{
    lemma_auto_spec_u64_to_from_le_bytes();
    let b = spec_state_to_bytes(s);
    assert(b.subrange(0, 8) =~= spec_u64_to_le_bytes(STATE_TAG));
    assert(b.subrange(8, 40) =~= s.admin.byte_seq());
    assert(b.subrange(40, 72) =~= s.whitelist_mint.byte_seq());
    assert(b.subrange(72, 104) =~= s.collateral_vault.byte_seq());
    assert(b.subrange(104, 136) =~= s.collateral_vault_authority.byte_seq());
    assert(b[136] == s.collateral_vault_nonce);
    assert(b.subrange(137, 169) =~= s.insurance_vault.byte_seq());
    assert(b.subrange(169, 201) =~= s.insurance_vault_authority.byte_seq());
    assert(b[201] == s.insurance_vault_nonce);
    assert(b.subrange(202, 234) =~= s.markets.byte_seq());
    assert(b.subrange(234, 266) =~= s.trade_history.byte_seq());
    assert(b.subrange(266, 298) =~= s.deposit_history.byte_seq());
    assert(b.subrange(298, 330) =~= s.funding_payment_history.byte_seq());
    assert(b.subrange(330, 362) =~= s.funding_rate_history.byte_seq());
    assert(b.subrange(362, 394) =~= s.liquidation_history.byte_seq());
    assert(b.subrange(394, 426) =~= s.curve_history.byte_seq());
    s.admin.lemma_roundtrip();
    s.whitelist_mint.lemma_roundtrip();
    s.collateral_vault.lemma_roundtrip();
    s.collateral_vault_authority.lemma_roundtrip();
    s.insurance_vault.lemma_roundtrip();
    s.insurance_vault_authority.lemma_roundtrip();
    s.markets.lemma_roundtrip();
    s.trade_history.lemma_roundtrip();
    s.deposit_history.lemma_roundtrip();
    s.funding_payment_history.lemma_roundtrip();
    s.funding_rate_history.lemma_roundtrip();
    s.liquidation_history.lemma_roundtrip();
    s.curve_history.lemma_roundtrip();
}

/// Serialize a root configuration record.
pub fn encode_state(s: &StateRecord) -> (r: Vec<u8>)
    ensures
        r@ == spec_state_to_bytes(*s),
        r@.len() == STATE_BYTES,
{
    let mut v: Vec<u8> = Vec::new();
    push_u64_le(&mut v, STATE_TAG);
    push_address(&mut v, &s.admin);
    push_address(&mut v, &s.whitelist_mint);
    push_address(&mut v, &s.collateral_vault);
    push_address(&mut v, &s.collateral_vault_authority);
    push_u8(&mut v, s.collateral_vault_nonce);
    push_address(&mut v, &s.insurance_vault);
    push_address(&mut v, &s.insurance_vault_authority);
    push_u8(&mut v, s.insurance_vault_nonce);
    push_address(&mut v, &s.markets);
    push_address(&mut v, &s.trade_history);
    push_address(&mut v, &s.deposit_history);
    push_address(&mut v, &s.funding_payment_history);
    push_address(&mut v, &s.funding_rate_history);
    push_address(&mut v, &s.liquidation_history);
    push_address(&mut v, &s.curve_history);
    proof {
        assert(v@ =~= spec_state_to_bytes(*s));
        lemma_state_roundtrip(*s);
    }
    v
}

/// Decode a root configuration record, failing closed on a wrong length
/// or discriminator.
pub fn decode_state(b: &[u8]) -> (r: Result<StateRecord, DriftError>)
    ensures
        r is Ok <==> (b@.len() == STATE_BYTES && spec_u64_from_le_bytes(b@.subrange(0, 8))
            == STATE_TAG),
        r is Ok ==> r->Ok_0 == spec_state_from_bytes(b@),
        r is Err ==> r->Err_0 == DriftError::DecodeError,
{
    let n: usize = b.len();
    if n != STATE_BYTES {
        return Err(DriftError::DecodeError);
    }
    let tag = read_u64_le(b, 0);
    if tag != STATE_TAG {
        return Err(DriftError::DecodeError);
    }
    Ok(StateRecord {
        admin: read_address(b, 8),
        whitelist_mint: read_address(b, 40),
        collateral_vault: read_address(b, 72),
        collateral_vault_authority: read_address(b, 104),
        collateral_vault_nonce: read_u8(b, 136),
        insurance_vault: read_address(b, 137),
        insurance_vault_authority: read_address(b, 169),
        insurance_vault_nonce: read_u8(b, 201),
        markets: read_address(b, 202),
        trade_history: read_address(b, 234),
        deposit_history: read_address(b, 266),
        funding_payment_history: read_address(b, 298),
        funding_rate_history: read_address(b, 330),
        liquidation_history: read_address(b, 362),
        curve_history: read_address(b, 394),
    })
}

/// One slot of the market list: whether a market is configured there, and
/// the price-reference address it uses.
#[derive(Clone, Copy, PartialEq, Eq, Structural, Debug)]
pub struct MarketSlot {
    pub initialized: bool,
    pub oracle: Address,
}

/// The market-list record: a fixed number of slots, indexed by market index.
#[derive(Clone, PartialEq, Eq, Debug)]
pub struct MarketsRecord {
    pub slots: Vec<MarketSlot>,
}

/// The bytes that encode one market slot: the initialized flag, then the
/// price-reference address.
pub open spec fn spec_market_slot_to_bytes(s: MarketSlot) -> Seq<u8> {
    seq![if s.initialized { 1u8 } else { 0u8 }] + s.oracle.byte_seq()
}

/// The slot read from 33 bytes.
pub open spec fn spec_market_slot_from_bytes(b: Seq<u8>) -> MarketSlot
    recommends
        b.len() == 33,
{
    MarketSlot { initialized: b[0] != 0, oracle: spec_address_from_bytes(b.subrange(1, 33)) }
}

/// The slot at index `i` of an encoded market list.
pub open spec fn spec_markets_slot_at(b: Seq<u8>, i: int) -> MarketSlot {
    spec_market_slot_from_bytes(b.subrange(8 + 33 * i, 8 + 33 * i + 33))
}

/// All slots of an encoded market list.
pub open spec fn spec_markets_from_bytes(b: Seq<u8>) -> Seq<MarketSlot> {
    Seq::new(MARKET_SLOT_COUNT as nat, |i: int| spec_markets_slot_at(b, i))
}

impl MarketsRecord {
    /// A market list always holds exactly `MARKET_SLOT_COUNT` slots.
    pub open spec fn wf(self) -> bool {
        self.slots@.len() == MARKET_SLOT_COUNT
    }

    /// A freshly initialized market list: every slot unconfigured, every
    /// price reference absent.
    pub fn fresh() -> (r: MarketsRecord)
        ensures
            r.wf(),
            forall|k: int|
                0 <= k < MARKET_SLOT_COUNT ==> r.slots@[k] == (MarketSlot {
                    initialized: false,
                    oracle: Address { w0: 0, w1: 0, w2: 0, w3: 0 },
                }),
    {
        let mut slots: Vec<MarketSlot> = Vec::new();
        let mut i: usize = 0;
        while i < MARKET_SLOT_COUNT
            invariant
                i <= MARKET_SLOT_COUNT,
                slots@.len() == i,
                forall|k: int|
                    0 <= k < i ==> slots@[k] == (MarketSlot {
                        initialized: false,
                        oracle: Address { w0: 0, w1: 0, w2: 0, w3: 0 },
                    }),
            decreases MARKET_SLOT_COUNT - i,
        {
            slots.push(MarketSlot { initialized: false, oracle: Address::zero() });
            i += 1;
        }
        MarketsRecord { slots }
    }

    /// Resolve a caller-supplied market index to its slot, bounds-checking
    /// it against the number of configured slots. An out-of-range index is
    /// rejected before any other work.
    pub fn market_slot(&self, market_index: u64) -> (r: Result<MarketSlot, DriftError>)
        requires
            self.wf(),
        ensures
            r is Ok <==> market_index < MARKET_SLOT_COUNT,
            r is Ok ==> r->Ok_0 == self.slots@[market_index as int],
            r is Err ==> r->Err_0 == DriftError::InvalidMarketIndex,
    {
        if market_index < MARKET_SLOT_COUNT as u64 {
            Ok(self.slots[market_index as usize])
        } else {
            Err(DriftError::InvalidMarketIndex)
        }
    }
}

/// Serialize a market list.
pub fn encode_markets(m: &MarketsRecord) -> (r: Vec<u8>)
    requires
        m.wf(),
    ensures
        r@.len() == MARKETS_BYTES,
        spec_u64_from_le_bytes(r@.subrange(0, 8)) == MARKETS_TAG,
        spec_markets_from_bytes(r@) == m.slots@,
{
    proof {
        lemma_auto_spec_u64_to_from_le_bytes();
    }
    let mut v: Vec<u8> = Vec::new();
    push_u64_le(&mut v, MARKETS_TAG);
    let mut i: usize = 0;
    while i < MARKET_SLOT_COUNT
        invariant
            m.wf(),
            i <= MARKET_SLOT_COUNT,
            v@.len() == 8 + 33 * i,
            v@.subrange(0, 8) == spec_u64_to_le_bytes(MARKETS_TAG),
            forall|k: int| 0 <= k < i ==> spec_markets_slot_at(v@, k) == m.slots@[k],
        decreases MARKET_SLOT_COUNT - i,
    {
        let ghost v_old = v@;
        let s = m.slots[i];
        push_u8(&mut v, if s.initialized { 1 } else { 0 });
        push_address(&mut v, &s.oracle);
        proof {
            lemma_auto_spec_u64_to_from_le_bytes();
            s.oracle.lemma_roundtrip();
            assert(s.oracle.byte_seq().len() == 32);
            assert(v@.subrange(0, v_old.len() as int) =~= v_old);
            assert(v@.subrange(8 + 33 * i as int, 8 + 33 * i as int + 33)
                =~= spec_market_slot_to_bytes(s));
            assert(spec_market_slot_to_bytes(s).subrange(1, 33) =~= s.oracle.byte_seq());
            assert(spec_markets_slot_at(v@, i as int) == s);
            assert forall|k: int| 0 <= k < i implies spec_markets_slot_at(v@, k)
                == m.slots@[k] by {
                assert(v@.subrange(8 + 33 * k, 8 + 33 * k + 33)
                    =~= v_old.subrange(8 + 33 * k, 8 + 33 * k + 33));
                assert(spec_markets_slot_at(v_old, k) == m.slots@[k]);
            }
        }
        i += 1;
    }
    proof {
        assert(v@.subrange(0, 8) == spec_u64_to_le_bytes(MARKETS_TAG));
        assert(spec_markets_from_bytes(v@) =~= m.slots@);
    }
    v
}

/// Decode a market list, failing closed on a wrong length or discriminator.
pub fn decode_markets(b: &[u8]) -> (r: Result<MarketsRecord, DriftError>)
    ensures
        r is Ok <==> (b@.len() == MARKETS_BYTES && spec_u64_from_le_bytes(b@.subrange(0, 8))
            == MARKETS_TAG),
        r is Ok ==> r->Ok_0.wf() && r->Ok_0.slots@ == spec_markets_from_bytes(b@),
        r is Err ==> r->Err_0 == DriftError::DecodeError,
{
    let n: usize = b.len();
    if n != MARKETS_BYTES {
        return Err(DriftError::DecodeError);
    }
    let tag = read_u64_le(b, 0);
    if tag != MARKETS_TAG {
        return Err(DriftError::DecodeError);
    }
    let mut slots: Vec<MarketSlot> = Vec::new();
    let mut i: usize = 0;
    while i < MARKET_SLOT_COUNT
        invariant
            b@.len() == MARKETS_BYTES,
            i <= MARKET_SLOT_COUNT,
            slots@.len() == i,
            forall|k: int| 0 <= k < i ==> slots@[k] == spec_markets_slot_at(b@, k),
        decreases MARKET_SLOT_COUNT - i,
    {
        let flag = read_u8(b, 8 + 33 * i);
        let oracle = read_address(b, 9 + 33 * i);
        slots.push(MarketSlot { initialized: flag != 0, oracle });
        proof {
            assert(b@.subrange(8 + 33 * i as int, 8 + 33 * i as int + 33).subrange(1, 33)
                =~= b@.subrange(9 + 33 * i as int, 9 + 33 * i as int + 32));
            assert(b@.subrange(8 + 33 * i as int, 8 + 33 * i as int + 33)[0]
                == b@[8 + 33 * i as int]);
            assert(slots@[i as int] == spec_markets_slot_at(b@, i as int));
        }
        i += 1;
    }
    let m = MarketsRecord { slots };
    proof {
        assert(m.slots@ =~= spec_markets_from_bytes(b@));
    }
    Ok(m)
}

/// The per-user record: who owns it, where its positions list lives, and
/// its collateral and deposit-tracking balances.
#[derive(Clone, Copy, PartialEq, Eq, Structural, Debug)]
pub struct UserRecord {
    pub authority: Address,
    pub positions: Address,
    pub collateral: u128,
    pub cumulative_deposits: u128,
    pub total_fee_paid: u64,
}

/// The bytes that encode `u`: the discriminator, then each field in
/// declaration order.
pub open spec fn spec_user_to_bytes(u: UserRecord) -> Seq<u8> {
    spec_u64_to_le_bytes(USER_TAG) + u.authority.byte_seq() + u.positions.byte_seq()
        + spec_u128_to_le_bytes(u.collateral) + spec_u128_to_le_bytes(u.cumulative_deposits)
        + spec_u64_to_le_bytes(u.total_fee_paid)
}

/// The record whose fields are read from `b` at their fixed offsets.
pub open spec fn spec_user_from_bytes(b: Seq<u8>) -> UserRecord
    recommends
        b.len() == USER_BYTES,
{
    UserRecord {
        authority: spec_address_from_bytes(b.subrange(8, 40)),
        positions: spec_address_from_bytes(b.subrange(40, 72)),
        collateral: spec_u128_from_le_bytes(b.subrange(72, 88)),
        cumulative_deposits: spec_u128_from_le_bytes(b.subrange(88, 104)),
        total_fee_paid: spec_u64_from_le_bytes(b.subrange(104, 112)),
    }
}

/// Encoding a per-user record and reading it back yields the same record.
pub proof fn lemma_user_roundtrip(u: UserRecord)
    ensures
        spec_user_to_bytes(u).len() == USER_BYTES,
        spec_u64_from_le_bytes(spec_user_to_bytes(u).subrange(0, 8)) == USER_TAG,
        spec_user_from_bytes(spec_user_to_bytes(u)) == u,
{
    lemma_auto_spec_u64_to_from_le_bytes();
    lemma_auto_spec_u128_to_from_le_bytes();
    let b = spec_user_to_bytes(u);
    assert(b.subrange(0, 8) =~= spec_u64_to_le_bytes(USER_TAG));
    assert(b.subrange(8, 40) =~= u.authority.byte_seq());
    assert(b.subrange(40, 72) =~= u.positions.byte_seq());
    assert(b.subrange(72, 88) =~= spec_u128_to_le_bytes(u.collateral));
    assert(b.subrange(88, 104) =~= spec_u128_to_le_bytes(u.cumulative_deposits));
    assert(b.subrange(104, 112) =~= spec_u64_to_le_bytes(u.total_fee_paid));
    u.authority.lemma_roundtrip();
    u.positions.lemma_roundtrip();
}

/// Serialize a per-user record.
pub fn encode_user(u: &UserRecord) -> (r: Vec<u8>)
    ensures
        r@ == spec_user_to_bytes(*u),
        r@.len() == USER_BYTES,
{
    let mut v: Vec<u8> = Vec::new();
    push_u64_le(&mut v, USER_TAG);
    push_address(&mut v, &u.authority);
    push_address(&mut v, &u.positions);
    push_u128_le(&mut v, u.collateral);
    push_u128_le(&mut v, u.cumulative_deposits);
    push_u64_le(&mut v, u.total_fee_paid);
    proof {
        assert(v@ =~= spec_user_to_bytes(*u));
        lemma_user_roundtrip(*u);
    }
    v
}

/// Decode a per-user record, failing closed on a wrong length or
/// discriminator.
pub fn decode_user(b: &[u8]) -> (r: Result<UserRecord, DriftError>)
    ensures
        r is Ok <==> (b@.len() == USER_BYTES && spec_u64_from_le_bytes(b@.subrange(0, 8))
            == USER_TAG),
        r is Ok ==> r->Ok_0 == spec_user_from_bytes(b@),
        r is Err ==> r->Err_0 == DriftError::DecodeError,
{
    let n: usize = b.len();
    if n != USER_BYTES {
        return Err(DriftError::DecodeError);
    }
    let tag = read_u64_le(b, 0);
    if tag != USER_TAG {
        return Err(DriftError::DecodeError);
    }
    Ok(UserRecord {
        authority: read_address(b, 8),
        positions: read_address(b, 40),
        collateral: read_u128_le(b, 72),
        cumulative_deposits: read_u128_le(b, 88),
        total_fee_paid: read_u64_le(b, 104),
    })
}

/// A history-log record. Only its write cursor is modeled: `head` is the
/// slot the next entry will be written to, `last_record_id` the identifier
/// of the most recent entry (zero when none was ever written).
#[derive(Clone, Copy, PartialEq, Eq, Structural, Debug)]
pub struct HistoryRecord {
    pub head: u64,
    pub last_record_id: u64,
}

impl HistoryRecord {
    /// The identifier the next history entry will carry.
    pub fn next_record_id(&self) -> (r: u64)
        requires
            self.last_record_id < u64::MAX,
        ensures
            r == self.last_record_id + 1,
    {
        self.last_record_id + 1
    }
}

/// The bytes that encode `h` as a record of history kind `kind`.
pub open spec fn spec_history_to_bytes(kind: AccountKind, h: HistoryRecord) -> Seq<u8> {
    spec_u64_to_le_bytes(kind.spec_tag()) + spec_u64_to_le_bytes(h.head)
        + spec_u64_to_le_bytes(h.last_record_id)
}

/// The history record read from `b`.
pub open spec fn spec_history_from_bytes(b: Seq<u8>) -> HistoryRecord
    recommends
        b.len() == HISTORY_BYTES,
{
    HistoryRecord {
        head: spec_u64_from_le_bytes(b.subrange(8, 16)),
        last_record_id: spec_u64_from_le_bytes(b.subrange(16, 24)),
    }
}

/// Encoding a history record and reading it back yields the same record.
pub proof fn lemma_history_roundtrip(kind: AccountKind, h: HistoryRecord)
    ensures
        spec_history_to_bytes(kind, h).len() == HISTORY_BYTES,
        spec_u64_from_le_bytes(spec_history_to_bytes(kind, h).subrange(0, 8)) == kind.spec_tag(),
        spec_history_from_bytes(spec_history_to_bytes(kind, h)) == h,
{
    lemma_auto_spec_u64_to_from_le_bytes();
    let b = spec_history_to_bytes(kind, h);
    assert(b.subrange(0, 8) =~= spec_u64_to_le_bytes(kind.spec_tag()));
    assert(b.subrange(8, 16) =~= spec_u64_to_le_bytes(h.head));
    assert(b.subrange(16, 24) =~= spec_u64_to_le_bytes(h.last_record_id));
}

/// Serialize a history record under the discriminator of `kind`.
pub fn encode_history(kind: AccountKind, h: &HistoryRecord) -> (r: Vec<u8>)
    requires
        kind.is_history(),
    ensures
        r@ == spec_history_to_bytes(kind, *h),
        r@.len() == HISTORY_BYTES,
{
    let mut v: Vec<u8> = Vec::new();
    push_u64_le(&mut v, kind.tag());
    push_u64_le(&mut v, h.head);
    push_u64_le(&mut v, h.last_record_id);
    proof {
        assert(v@ =~= spec_history_to_bytes(kind, *h));
        lemma_history_roundtrip(kind, *h);
    }
    v
}

/// Decode a history record of the given kind, failing closed on a wrong
/// length or on another kind's discriminator.
pub fn decode_history(kind: AccountKind, b: &[u8]) -> (r: Result<HistoryRecord, DriftError>)
    requires
        kind.is_history(),
    ensures
        r is Ok <==> (b@.len() == HISTORY_BYTES && spec_u64_from_le_bytes(b@.subrange(0, 8))
            == kind.spec_tag()),
        r is Ok ==> r->Ok_0 == spec_history_from_bytes(b@),
        r is Err ==> r->Err_0 == DriftError::DecodeError,
{
    let n: usize = b.len();
    if n != HISTORY_BYTES {
        return Err(DriftError::DecodeError);
    }
    let tag = read_u64_le(b, 0);
    if tag != kind.tag() {
        return Err(DriftError::DecodeError);
    }
    Ok(HistoryRecord { head: read_u64_le(b, 8), last_record_id: read_u64_le(b, 16) })
}

/// A decoded record of any tracked kind.
#[derive(Clone, PartialEq, Eq, Debug)]
pub enum Record {
    State(StateRecord),
    Markets(MarketsRecord),
    TradeHistory(HistoryRecord),
    DepositHistory(HistoryRecord),
    FundingPaymentHistory(HistoryRecord),
    FundingRateHistory(HistoryRecord),
    CurveHistory(HistoryRecord),
    LiquidationHistory(HistoryRecord),
    User(UserRecord),
}

impl Record {
    /// The account kind this record belongs to.
    pub open spec fn kind(self) -> AccountKind {
        match self {
            Record::State(_) => AccountKind::State,
            Record::Markets(_) => AccountKind::Markets,
            Record::TradeHistory(_) => AccountKind::TradeHistory,
            Record::DepositHistory(_) => AccountKind::DepositHistory,
            Record::FundingPaymentHistory(_) => AccountKind::FundingPaymentHistory,
            Record::FundingRateHistory(_) => AccountKind::FundingRateHistory,
            Record::CurveHistory(_) => AccountKind::CurveHistory,
            Record::LiquidationHistory(_) => AccountKind::LiquidationHistory,
            Record::User(_) => AccountKind::User,
        }
    }

    /// Structural well-formedness: a market list carries its full slot
    /// count.
    pub open spec fn wf(self) -> bool {
        match self {
            Record::Markets(m) => m.wf(),
            _ => true,
        }
    }

    /// This record's root configuration, when it is one.
    pub fn as_state(&self) -> (r: Option<&StateRecord>)
        ensures
            r is Some <==> self is State,
            r is Some ==> *r->Some_0 == self->State_0,
    {
        match self {
            Record::State(s) => Some(s),
            _ => None,
        }
    }

    /// This record's market list, when it is one.
    pub fn as_markets(&self) -> (r: Option<&MarketsRecord>)
        ensures
            r is Some <==> self is Markets,
            r is Some ==> *r->Some_0 == self->Markets_0,
    {
        match self {
            Record::Markets(m) => Some(m),
            _ => None,
        }
    }

    /// This record's per-user record, when it is one.
    pub fn as_user(&self) -> (r: Option<&UserRecord>)
        ensures
            r is Some <==> self is User,
            r is Some ==> *r->Some_0 == self->User_0,
    {
        match self {
            Record::User(u) => Some(u),
            _ => None,
        }
    }
}

/// Whether `b` decodes as a record of kind `kind`: the length and the
/// leading discriminator both match.
pub open spec fn spec_record_decodes(kind: AccountKind, b: Seq<u8>) -> bool {
    &&& match kind {
        AccountKind::State => b.len() == STATE_BYTES,
        AccountKind::Markets => b.len() == MARKETS_BYTES,
        AccountKind::User => b.len() == USER_BYTES,
        _ => b.len() == HISTORY_BYTES,
    }
    &&& spec_u64_from_le_bytes(b.subrange(0, 8)) == kind.spec_tag()
}

/// Whether `rec` is exactly the record that `b` encodes: every field of
/// `rec` equals the value read from `b` at its fixed offset.
pub open spec fn record_matches_bytes(rec: Record, b: Seq<u8>) -> bool {
    match rec {
        Record::State(s) => s == spec_state_from_bytes(b),
        Record::Markets(m) => m.slots@ == spec_markets_from_bytes(b),
        Record::User(u) => u == spec_user_from_bytes(b),
        Record::TradeHistory(h) => h == spec_history_from_bytes(b),
        Record::DepositHistory(h) => h == spec_history_from_bytes(b),
        Record::FundingPaymentHistory(h) => h == spec_history_from_bytes(b),
        Record::FundingRateHistory(h) => h == spec_history_from_bytes(b),
        Record::CurveHistory(h) => h == spec_history_from_bytes(b),
        Record::LiquidationHistory(h) => h == spec_history_from_bytes(b),
    }
}

/// Decode bytes as a record of the expected kind. The discriminator is
/// verified before the remainder is interpreted; a mismatch is never
/// silently coerced.
pub fn decode_record(kind: AccountKind, b: &[u8]) -> (r: Result<Record, DriftError>)
    ensures
        r is Ok <==> spec_record_decodes(kind, b@),
        r is Ok ==> record_matches_bytes(r->Ok_0, b@) && r->Ok_0.kind() == kind
            && r->Ok_0.wf(),
        r is Err ==> r->Err_0 == DriftError::DecodeError,
{
    match kind {
        AccountKind::State => match decode_state(b) {
            Ok(s) => Ok(Record::State(s)),
            Err(e) => Err(e),
        },
        AccountKind::Markets => match decode_markets(b) {
            Ok(m) => Ok(Record::Markets(m)),
            Err(e) => Err(e),
        },
        AccountKind::User => match decode_user(b) {
            Ok(u) => Ok(Record::User(u)),
            Err(e) => Err(e),
        },
        AccountKind::TradeHistory => match decode_history(kind, b) {
            Ok(h) => Ok(Record::TradeHistory(h)),
            Err(e) => Err(e),
        },
        AccountKind::DepositHistory => match decode_history(kind, b) {
            Ok(h) => Ok(Record::DepositHistory(h)),
            Err(e) => Err(e),
        },
        AccountKind::FundingPaymentHistory => match decode_history(kind, b) {
            Ok(h) => Ok(Record::FundingPaymentHistory(h)),
            Err(e) => Err(e),
        },
        AccountKind::FundingRateHistory => match decode_history(kind, b) {
            Ok(h) => Ok(Record::FundingRateHistory(h)),
            Err(e) => Err(e),
        },
        AccountKind::CurveHistory => match decode_history(kind, b) {
            Ok(h) => Ok(Record::CurveHistory(h)),
            Err(e) => Err(e),
        },
        AccountKind::LiquidationHistory => match decode_history(kind, b) {
            Ok(h) => Ok(Record::LiquidationHistory(h)),
            Err(e) => Err(e),
        },
    }
}

} // verus!
