use vstd::prelude::*;

use crate::constants::{BPS_DENOMINATOR, FEE_BPS};
use crate::error::EscrowError;

verus! {

/// The split of a pooled stake, shared by the two finalization paths so
/// that a negotiated settlement and a forfeiture of the same record pay
/// out exactly the same numbers.
#[derive(Clone, Copy, Debug, PartialEq, Eq, Structural)]
pub struct Distribution {
    /// Both wagers together: twice the record's wager unit.
    pub total_pot: u64,
    /// Treasury's cut: `total_pot * FEE_BPS / BPS_DENOMINATOR`, floored.
    pub fee: u64,
    /// What the winner receives: the pot less the fee.
    pub payout: u64,
}

/// Both wagers pooled together.
pub open spec fn spec_total_pot(wager_unit: u64) -> int {
    2 * wager_unit
}

/// The treasury fee at finalization: the fixed basis-point rate applied
/// to the pot, rounded down.
pub open spec fn spec_fee(wager_unit: u64) -> int {
    spec_total_pot(wager_unit) * (FEE_BPS as int) / (BPS_DENOMINATOR as int)
}

/// The winner's payout: whatever of the pot the fee leaves behind.
pub open spec fn spec_payout(wager_unit: u64) -> int {
    spec_total_pot(wager_unit) - spec_fee(wager_unit)
}

/// The fee and the payout always add back up to the pot, and the fee never
/// exceeds the pot, whatever the wager.
pub proof fn lemma_distribution_conserves_pot(wager_unit: u64)
    ensures
        spec_fee(wager_unit) + spec_payout(wager_unit) == spec_total_pot(wager_unit),
        0 <= spec_fee(wager_unit) <= spec_total_pot(wager_unit),
{
    let pot = spec_total_pot(wager_unit);
    assert(pot * (FEE_BPS as int) <= pot * (BPS_DENOMINATOR as int)) by (nonlinear_arith)
        requires
            0 <= pot,
    ;
    vstd::arithmetic::div_mod::lemma_div_is_ordered(
        pot * (FEE_BPS as int),
        pot * (BPS_DENOMINATOR as int),
        BPS_DENOMINATOR as int,
    );
    vstd::arithmetic::div_mod::lemma_div_multiples_vanish(pot, BPS_DENOMINATOR as int);
    vstd::arithmetic::div_mod::lemma_div_pos_is_pos(pot * (FEE_BPS as int), BPS_DENOMINATOR as int);
}

/// Computes the pot, the fee and the payout for one record's wager unit,
/// with wide intermediate arithmetic so the basis-point multiply cannot
/// overflow; only a pot that does not fit the 64-bit balance width is
/// rejected, folded into `InsufficientFunds`.
pub fn compute_distribution(wager_unit: u64) -> (r: Result<Distribution, EscrowError>)
    ensures
        2 * wager_unit <= u64::MAX ==> (r matches Ok(d)
            && d.total_pot == spec_total_pot(wager_unit)
            && d.fee == spec_fee(wager_unit)
            && d.payout == spec_payout(wager_unit)
            && d.fee + d.payout == d.total_pot),
        2 * wager_unit > u64::MAX ==> r == Err::<Distribution, EscrowError>(
            EscrowError::InsufficientFunds,
        ),
{
    let total_pot = match wager_unit.checked_mul(2) {
        Some(p) => p,
        None => {
            return Err(EscrowError::InsufficientFunds);
        },
    };
    proof {
        lemma_distribution_conserves_pot(wager_unit);
    }
    let fee_wide: u128 = (total_pot as u128) * (FEE_BPS as u128) / (BPS_DENOMINATOR as u128);
    let fee: u64 = fee_wide as u64;
    let payout: u64 = total_pot - fee;
    Ok(Distribution { total_pot, fee, payout })
}

} // verus!
