//! Protocol-wide parameters.
use vstd::prelude::*;

verus! {

/// Fees and shares are expressed in units of 1/10000.
pub const BASIS_POINTS_DIVISOR: u64 = 10000;

/// Royalty share of the marketplace fees used when a fee policy sets none.
pub const DEFAULT_ROYALTY_FEE_SHARE_BPS: u16 = 5000;

/// Share of the payment amount offered as a buy-side rebate.
pub const DEFAULT_BUY_SIDE_FEE_SHARE_BPS: u64 = 100;

/// Creator shares are whole percentages.
pub const SHARE_DIVISOR: u64 = 100;

} // verus!
