use vstd::prelude::*;

verus! {

/// Treasury fee taken at finalization, in basis points (1000 = 10%).
pub const FEE_BPS: u16 = 1000;

/// Denominator turning basis points into a fraction (parts per 10,000).
pub const BPS_DENOMINATOR: u64 = 10000;

} // verus!
