use vstd::prelude::*;

use crate::error::EscrowError;
use crate::state::{AccountId, MatchEscrow};

verus! {

/// Accounts taking part in an authority-only deposit confirmation: the
/// signer and the record. No funds move.
pub struct ConfirmDeposit {
    /// The signer of the call; must be the record's authority.
    pub authority: AccountId,
    /// The record whose deposit flag is being set.
    pub escrow: MatchEscrow,
}

/// Why a confirmation would be rejected, in the order the checks run, or
/// `None` where it goes through. A depositor who is neither host nor
/// opponent is treated as an authorization failure.
pub open spec fn confirm_deposit_outcome(c: ConfirmDeposit, depositor: AccountId) -> Option<
    EscrowError,
> {
    if c.authority != c.escrow.authority {
        Some(EscrowError::NotAuthorized)
    } else if !c.escrow.spec_is_participant(depositor) {
        Some(EscrowError::NotAuthorized)
    } else if c.escrow.settled {
        Some(EscrowError::AlreadySettled)
    } else if c.escrow.spec_deposited(depositor) {
        Some(EscrowError::AlreadyDeposited)
    } else {
        None
    }
}

/// The state after a confirmation that went through: the depositor's flag
/// set, everything else untouched.
pub open spec fn confirm_deposit_result(c: ConfirmDeposit, depositor: AccountId) -> ConfirmDeposit {
    ConfirmDeposit { escrow: c.escrow.spec_mark_deposited(depositor), ..c }
}

/// Confirming the same depositor twice cannot work: once a confirmation
/// has gone through, repeating it is rejected as `AlreadyDeposited`.
pub proof fn lemma_confirm_deposit_not_repeatable(c: ConfirmDeposit, depositor: AccountId)
    requires
        confirm_deposit_outcome(c, depositor) is None,
    ensures
        confirm_deposit_outcome(confirm_deposit_result(c, depositor), depositor) == Some(
            EscrowError::AlreadyDeposited,
        ),
{
}

/// A settled record is terminal for confirmations too: confirming any
/// participant on it is rejected as `AlreadySettled`.
pub proof fn lemma_confirm_deposit_terminal(c: ConfirmDeposit, depositor: AccountId)
    requires
        c.authority == c.escrow.authority,
        c.escrow.spec_is_participant(depositor),
        c.escrow.settled,
    ensures
        confirm_deposit_outcome(c, depositor) == Some(EscrowError::AlreadySettled),
{
}

/// Marks a participant's wager as deposited without moving funds, on the
/// authority's say-so after an out-of-band payment was verified. The
/// engine does not reconcile the custody balance against this flag; the
/// authority answers for that.
pub fn handler(ctx: &mut ConfirmDeposit, depositor: AccountId) -> (r: Result<(), EscrowError>)
    ensures
        confirm_deposit_outcome(*old(ctx), depositor) is None ==> r == Ok::<(), EscrowError>(())
            && *final(ctx) == confirm_deposit_result(*old(ctx), depositor),
        confirm_deposit_outcome(*old(ctx), depositor) matches Some(e) ==> r == Err::<
            (),
            EscrowError,
        >(e) && *final(ctx) == *old(ctx),
{
    if ctx.authority != ctx.escrow.authority {
        return Err(EscrowError::NotAuthorized);
    }
    let is_host = depositor == ctx.escrow.host;
    let is_opponent = depositor == ctx.escrow.opponent;
    if !(is_host || is_opponent) {
        return Err(EscrowError::NotAuthorized);
    }
    if ctx.escrow.settled {
        return Err(EscrowError::AlreadySettled);
    }
    if is_host {
        if ctx.escrow.host_deposited {
            return Err(EscrowError::AlreadyDeposited);
        }
        ctx.escrow.host_deposited = true;
    } else {
        if ctx.escrow.opponent_deposited {
            return Err(EscrowError::AlreadyDeposited);
        }
        ctx.escrow.opponent_deposited = true;
    }
    Ok(())
}

} // verus!
