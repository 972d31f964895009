//! The façade's set of tracked account handles, one per account type,
//! with subscription dispatch over a closed consumer tag.

use vstd::prelude::*;
use crate::address::Address;
use crate::cache::AccountHandle;
use crate::errors::DriftError;
use crate::records::{AccountKind, StateRecord};

verus! {

/// Which tracked account a consumer wants updates for. One case per
/// tracked account type; dispatch is closed, never ad hoc.
#[derive(Clone, Copy, PartialEq, Eq, Structural, Debug)]
pub enum AccountConsumer {
    StateConsumer,
    MarketsConsumer,
    TradeHistoryConsumer,
    DepositHistoryConsumer,
    FundingPaymentHistoryConsumer,
    FundingRateHistoryConsumer,
    CurveHistoryConsumer,
    LiquidationHistoryConsumer,
}

impl AccountConsumer {
    /// The account kind this consumer subscribes to.
    pub open spec fn kind(self) -> AccountKind {
        match self {
            AccountConsumer::StateConsumer => AccountKind::State,
            AccountConsumer::MarketsConsumer => AccountKind::Markets,
            AccountConsumer::TradeHistoryConsumer => AccountKind::TradeHistory,
            AccountConsumer::DepositHistoryConsumer => AccountKind::DepositHistory,
            AccountConsumer::FundingPaymentHistoryConsumer => AccountKind::FundingPaymentHistory,
            AccountConsumer::FundingRateHistoryConsumer => AccountKind::FundingRateHistory,
            AccountConsumer::CurveHistoryConsumer => AccountKind::CurveHistory,
            AccountConsumer::LiquidationHistoryConsumer => AccountKind::LiquidationHistory,
        }
    }
}

/// The handles a façade keeps warm: the root configuration account, the
/// market list, and the six history logs, each at the address the root
/// configuration record names for it.
#[derive(Debug)]
pub struct DefaultClearingHouseAccount {
    pub state: AccountHandle,
    pub markets: AccountHandle,
    pub trade_history: AccountHandle,
    pub deposit_history: AccountHandle,
    pub funding_payment_history: AccountHandle,
    pub funding_rate_history: AccountHandle,
    pub curve_history: AccountHandle,
    pub liquidation_history: AccountHandle,
}

impl DefaultClearingHouseAccount {
    /// Every handle carries its own kind and a well-formed cache.
    pub open spec fn wf(self) -> bool {
        &&& self.state.wf() && self.state.kind == AccountKind::State
        &&& self.markets.wf() && self.markets.kind == AccountKind::Markets
        &&& self.trade_history.wf() && self.trade_history.kind == AccountKind::TradeHistory
        &&& self.deposit_history.wf() && self.deposit_history.kind == AccountKind::DepositHistory
        &&& self.funding_payment_history.wf() && self.funding_payment_history.kind
            == AccountKind::FundingPaymentHistory
        &&& self.funding_rate_history.wf() && self.funding_rate_history.kind
            == AccountKind::FundingRateHistory
        &&& self.curve_history.wf() && self.curve_history.kind == AccountKind::CurveHistory
        &&& self.liquidation_history.wf() && self.liquidation_history.kind
            == AccountKind::LiquidationHistory
    }

    /// The handle a consumer's kind selects.
    pub open spec fn spec_handle(self, c: AccountConsumer) -> AccountHandle {
        match c {
            AccountConsumer::StateConsumer => self.state,
            AccountConsumer::MarketsConsumer => self.markets,
            AccountConsumer::TradeHistoryConsumer => self.trade_history,
            AccountConsumer::DepositHistoryConsumer => self.deposit_history,
            AccountConsumer::FundingPaymentHistoryConsumer => self.funding_payment_history,
            AccountConsumer::FundingRateHistoryConsumer => self.funding_rate_history,
            AccountConsumer::CurveHistoryConsumer => self.curve_history,
            AccountConsumer::LiquidationHistoryConsumer => self.liquidation_history,
        }
    }

    /// This set with the selected handle replaced.
    pub open spec fn spec_with_handle(self, c: AccountConsumer, h: AccountHandle)
        -> DefaultClearingHouseAccount {
        match c {
            AccountConsumer::StateConsumer => DefaultClearingHouseAccount { state: h, ..self },
            AccountConsumer::MarketsConsumer => DefaultClearingHouseAccount {
                markets: h,
                ..self
            },
            AccountConsumer::TradeHistoryConsumer => DefaultClearingHouseAccount {
                trade_history: h,
                ..self
            },
            AccountConsumer::DepositHistoryConsumer => DefaultClearingHouseAccount {
                deposit_history: h,
                ..self
            },
            AccountConsumer::FundingPaymentHistoryConsumer => DefaultClearingHouseAccount {
                funding_payment_history: h,
                ..self
            },
            AccountConsumer::FundingRateHistoryConsumer => DefaultClearingHouseAccount {
                funding_rate_history: h,
                ..self
            },
            AccountConsumer::CurveHistoryConsumer => DefaultClearingHouseAccount {
                curve_history: h,
                ..self
            },
            AccountConsumer::LiquidationHistoryConsumer => DefaultClearingHouseAccount {
                liquidation_history: h,
                ..self
            },
        }
    }

    /// Build the tracked set from the root configuration account's address
    /// and its decoded record: one fresh handle per tracked account type,
    /// each at the address the record names, with empty caches and no
    /// subscriptions.
    pub fn new(state_address: Address, state: &StateRecord) -> (r: DefaultClearingHouseAccount)
        ensures
            r.wf(),
            r.state.address == state_address,
            r.markets.address == state.markets,
            r.trade_history.address == state.trade_history,
            r.deposit_history.address == state.deposit_history,
            r.funding_payment_history.address == state.funding_payment_history,
            r.funding_rate_history.address == state.funding_rate_history,
            r.curve_history.address == state.curve_history,
            r.liquidation_history.address == state.liquidation_history,
            r.state.cached is None && !r.state.subscribed,
            r.markets.cached is None && !r.markets.subscribed,
            r.trade_history.cached is None && !r.trade_history.subscribed,
            r.deposit_history.cached is None && !r.deposit_history.subscribed,
            r.funding_payment_history.cached is None && !r.funding_payment_history.subscribed,
            r.funding_rate_history.cached is None && !r.funding_rate_history.subscribed,
            r.curve_history.cached is None && !r.curve_history.subscribed,
            r.liquidation_history.cached is None && !r.liquidation_history.subscribed,
    {
        DefaultClearingHouseAccount {
            state: AccountHandle::new(AccountKind::State, state_address, String::from_str(
                "State",
            )),
            markets: AccountHandle::new(AccountKind::Markets, state.markets, String::from_str(
                "Markets",
            )),
            trade_history: AccountHandle::new(
                AccountKind::TradeHistory,
                state.trade_history,
                String::from_str("TradeHistory"),
            ),
            deposit_history: AccountHandle::new(
                AccountKind::DepositHistory,
                state.deposit_history,
                String::from_str("DepositHistory"),
            ),
            funding_payment_history: AccountHandle::new(
                AccountKind::FundingPaymentHistory,
                state.funding_payment_history,
                String::from_str("FundingPaymentHistory"),
            ),
            funding_rate_history: AccountHandle::new(
                AccountKind::FundingRateHistory,
                state.funding_rate_history,
                String::from_str("FundingRateHistory"),
            ),
            curve_history: AccountHandle::new(
                AccountKind::CurveHistory,
                state.curve_history,
                String::from_str("CurveHistory"),
            ),
            liquidation_history: AccountHandle::new(
                AccountKind::LiquidationHistory,
                state.liquidation_history,
                String::from_str("LiquidationHistory"),
            ),
        }
    }

    pub fn state(&self) -> (r: &AccountHandle)
        ensures
            r == &self.state,
    {
        &self.state
    }

    pub fn markets(&self) -> (r: &AccountHandle)
        ensures
            r == &self.markets,
    {
        &self.markets
    }

    pub fn trade_history(&self) -> (r: &AccountHandle)
        ensures
            r == &self.trade_history,
    {
        &self.trade_history
    }

    pub fn deposit_history(&self) -> (r: &AccountHandle)
        ensures
            r == &self.deposit_history,
    {
        &self.deposit_history
    }

    pub fn funding_payment_history(&self) -> (r: &AccountHandle)
        ensures
            r == &self.funding_payment_history,
    {
        &self.funding_payment_history
    }

    pub fn funding_rate_history(&self) -> (r: &AccountHandle)
        ensures
            r == &self.funding_rate_history,
    {
        &self.funding_rate_history
    }

    pub fn curve_history(&self) -> (r: &AccountHandle)
        ensures
            r == &self.curve_history,
    {
        &self.curve_history
    }

    pub fn liquidation_history(&self) -> (r: &AccountHandle)
        ensures
            r == &self.liquidation_history,
    {
        &self.liquidation_history
    }

    /// Register a consumer: mark its handle subscribed. A handle that is
    /// already subscribed is left alone. The result names the address
    /// whose live channel must now be opened, or nothing when the
    /// subscription was already up.
    pub fn subscribe(&mut self, consumer: AccountConsumer) -> (r: Option<Address>)
        requires
            old(self).wf(),
        ensures
            final(self).wf(),
            *final(self) == old(self).spec_with_handle(
                consumer,
                AccountHandle { subscribed: true, ..old(self).spec_handle(consumer) },
            ),
            r == (if old(self).spec_handle(consumer).subscribed {
                Option::<Address>::None
            } else {
                Option::<Address>::Some(old(self).spec_handle(consumer).address)
            }),
    {
        let h = match consumer {
            AccountConsumer::StateConsumer => &mut self.state,
            AccountConsumer::MarketsConsumer => &mut self.markets,
            AccountConsumer::TradeHistoryConsumer => &mut self.trade_history,
            AccountConsumer::DepositHistoryConsumer => &mut self.deposit_history,
            AccountConsumer::FundingPaymentHistoryConsumer => &mut self.funding_payment_history,
            AccountConsumer::FundingRateHistoryConsumer => &mut self.funding_rate_history,
            AccountConsumer::CurveHistoryConsumer => &mut self.curve_history,
            AccountConsumer::LiquidationHistoryConsumer => &mut self.liquidation_history,
        };
        let addr = h.pubkey();
        let opened = h.subscribe();
        if opened {
            Some(addr)
        } else {
            None
        }
    }

    /// Apply one unsubscribe attempt to the selected handle, with the
    /// transport's answer. Idempotent on an unsubscribed handle; a failed
    /// send leaves the handle subscribed so the caller can retry, and
    /// never disturbs the other handles.
    pub fn unsubscribe(&mut self, consumer: AccountConsumer, send_ok: bool) -> (r: Result<
        (),
        DriftError,
    >)
        requires
            old(self).wf(),
        ensures
            final(self).wf(),
            r is Ok <==> (!old(self).spec_handle(consumer).subscribed || send_ok),
            r is Ok ==> *final(self) == old(self).spec_with_handle(
                consumer,
                old(self).spec_handle(consumer).spec_unsubscribed(),
            ),
            r is Err ==> *final(self) == *old(self) && r->Err_0 == DriftError::TransportError,
    {
        let h = match consumer {
            AccountConsumer::StateConsumer => &mut self.state,
            AccountConsumer::MarketsConsumer => &mut self.markets,
            AccountConsumer::TradeHistoryConsumer => &mut self.trade_history,
            AccountConsumer::DepositHistoryConsumer => &mut self.deposit_history,
            AccountConsumer::FundingPaymentHistoryConsumer => &mut self.funding_payment_history,
            AccountConsumer::FundingRateHistoryConsumer => &mut self.funding_rate_history,
            AccountConsumer::CurveHistoryConsumer => &mut self.curve_history,
            AccountConsumer::LiquidationHistoryConsumer => &mut self.liquidation_history,
        };
        let r = h.unsubscribe(send_ok);
        proof {
            if r is Ok {
                assert(*self =~= old(self).spec_with_handle(
                    consumer,
                    old(self).spec_handle(consumer).spec_unsubscribed(),
                ));
            } else {
                assert(*self =~= *old(self));
            }
        }
        r
    }
}

} // verus!
