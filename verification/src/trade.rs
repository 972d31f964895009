//! Fixed trade-sizing arithmetic and externally-specified account sizes.

use vstd::prelude::*;

verus! {

/// Maximum leverage the sizing formula assumes.
pub const MAX_LEVERAGE: u64 = 5;

/// Fixed-point scale of the fee mantissa.
pub const ONE_MANTISSA: u64 = 100000;

/// Per-trade fee in mantissa units.
pub const FEE_MANTISSA: u64 = 100;

/// The notional trade amount that a collateral deposit supports at maximum
/// leverage, net of the fee that the leveraged position will pay.
pub fn calculate_trade_amount(collateral_amount: u64) -> (r: u128)
    ensures
        r == collateral_amount as int * MAX_LEVERAGE as int * (ONE_MANTISSA as int
            - MAX_LEVERAGE as int * FEE_MANTISSA as int) / ONE_MANTISSA as int,
{
    let c = collateral_amount as u128;
    proof {
        assert(c * 5 * (100000 - 5 * 100) <= u128::MAX) by (nonlinear_arith)
            requires
                c <= 0xffff_ffff_ffff_ffffu128,
        ;
    }
    c * 5 * (100000 - 5 * 100) / 100000
}

/// Exact byte sizes that newly created remote accounts must reserve. The
/// remote program rejects creation with any other size.
pub const MARKETS_SIZE: u64 = 33416;

pub const FUNDING_RATE_HISTORY_SIZE: u64 = 114704;

pub const FUNDING_PAYMENT_HISTORY_SIZE: u64 = 188432;

pub const TRADE_HISTORY_SIZE: u64 = 247824;

pub const LIQUIDATION_HISTORY_SIZE: u64 = 254992;

pub const DEPOSIT_HISTORY_SIZE: u64 = 132112;

pub const CURVE_HISTORY_SIZE: u64 = 8720;

} // verus!
