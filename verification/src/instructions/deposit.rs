use vstd::prelude::*;

use crate::error::EscrowError;
use crate::state::{AccountId, MatchEscrow, TokenAccount};

verus! {

/// Accounts taking part in a participant's deposit: the signing depositor
/// with their native balance, the record with its custody balance, and the
/// token sub-accounts plus transfer mechanism that only the token path
/// needs.
pub struct Deposit {
    /// The signer of the call; must be the host or the opponent.
    pub depositor: AccountId,
    /// The depositor's native-coin balance.
    pub depositor_lamports: u64,
    /// The record being funded.
    pub escrow: MatchEscrow,
    /// The custody account's native-coin balance.
    pub escrow_lamports: u64,
    /// The depositor's token sub-account, needed only for a token asset.
    pub depositor_token_account: Option<TokenAccount>,
    /// The custody token sub-account, needed only for a token asset.
    pub escrow_token_account: Option<TokenAccount>,
    /// Whether the token-transfer mechanism was supplied with the call.
    pub token_program_supplied: bool,
}

/// Why a deposit would be rejected, in the order the checks run, or `None`
/// where it goes through. A failed transfer leg — a short balance on the
/// paying side, or a receiving balance the added wager would not fit in —
/// is folded into `InsufficientFunds`.
pub open spec fn deposit_outcome(c: Deposit) -> Option<EscrowError> {
    let e = c.escrow;
    if !e.spec_is_participant(c.depositor) {
        Some(EscrowError::NotAuthorized)
    } else if e.settled {
        Some(EscrowError::AlreadySettled)
    } else if e.spec_deposited(c.depositor) {
        Some(EscrowError::AlreadyDeposited)
    } else if e.spec_is_native() {
        if c.depositor_lamports < e.wager_unit {
            Some(EscrowError::InsufficientFunds)
        } else if c.escrow_lamports + e.wager_unit > u64::MAX {
            Some(EscrowError::InsufficientFunds)
        } else {
            None
        }
    } else {
        if c.depositor_token_account is None || c.escrow_token_account is None
            || !c.token_program_supplied {
            Some(EscrowError::MissingRequiredAccount)
        } else if c.depositor_token_account->Some_0.amount < e.wager_unit {
            Some(EscrowError::InsufficientFunds)
        } else if c.escrow_token_account->Some_0.amount + e.wager_unit > u64::MAX {
            Some(EscrowError::InsufficientFunds)
        } else {
            None
        }
    }
}

/// The state after a deposit that went through: exactly one wager moved
/// from the depositor into custody along the path the asset tag selects,
/// and the depositor's flag set.
pub open spec fn deposit_result(c: Deposit) -> Deposit {
    let e = c.escrow;
    if e.spec_is_native() {
        Deposit {
            depositor_lamports: (c.depositor_lamports - e.wager_unit) as u64,
            escrow_lamports: (c.escrow_lamports + e.wager_unit) as u64,
            escrow: e.spec_mark_deposited(c.depositor),
            ..c
        }
    } else {
        Deposit {
            depositor_token_account: Some(
                TokenAccount {
                    amount: (c.depositor_token_account->Some_0.amount - e.wager_unit) as u64,
                },
            ),
            escrow_token_account: Some(
                TokenAccount {
                    amount: (c.escrow_token_account->Some_0.amount + e.wager_unit) as u64,
                },
            ),
            escrow: e.spec_mark_deposited(c.depositor),
            ..c
        }
    }
}

/// Depositing twice as the same participant cannot work: once a deposit
/// has gone through, repeating it is rejected as `AlreadyDeposited` — and
/// a rejected deposit changes neither flag nor balance, as the handler's
/// contract states.
pub proof fn lemma_deposit_not_repeatable(c: Deposit)
    requires
        deposit_outcome(c) is None,
    ensures
        deposit_outcome(deposit_result(c)) == Some(EscrowError::AlreadyDeposited),
{
}

/// A settled record is terminal for deposits too: any participant's
/// deposit into it is rejected as `AlreadySettled`, whatever else the
/// call supplies.
pub proof fn lemma_deposit_terminal(c: Deposit)
    requires
        c.escrow.spec_is_participant(c.depositor),
        c.escrow.settled,
    ensures
        deposit_outcome(c) == Some(EscrowError::AlreadySettled),
{
}

/// For a token-asset record, a deposit missing any token sub-account or
/// the transfer mechanism is rejected as `MissingRequiredAccount`.
pub proof fn lemma_deposit_requires_token_accounts(c: Deposit)
    requires
        c.escrow.spec_is_participant(c.depositor),
        !c.escrow.settled,
        !c.escrow.spec_deposited(c.depositor),
        !c.escrow.spec_is_native(),
        c.depositor_token_account is None || c.escrow_token_account is None
            || !c.token_program_supplied,
    ensures
        deposit_outcome(c) == Some(EscrowError::MissingRequiredAccount),
{
}

/// Moves one wager unit from the signing participant into custody and
/// sets that participant's deposit flag; the move and the flag commit
/// together or not at all.
pub fn handler(ctx: &mut Deposit) -> (r: Result<(), EscrowError>)
    ensures
        deposit_outcome(*old(ctx)) is None ==> r == Ok::<(), EscrowError>(()) && *final(ctx)
            == deposit_result(*old(ctx)),
        deposit_outcome(*old(ctx)) matches Some(e) ==> r == Err::<(), EscrowError>(e)
            && *final(ctx) == *old(ctx),
{
    let is_host = ctx.depositor == ctx.escrow.host;
    let is_opponent = ctx.depositor == ctx.escrow.opponent;
    if !(is_host || is_opponent) {
        return Err(EscrowError::NotAuthorized);
    }
    if ctx.escrow.settled {
        return Err(EscrowError::AlreadySettled);
    }
    if is_host {
        if ctx.escrow.host_deposited {
            return Err(EscrowError::AlreadyDeposited);
        }
    } else {
        if ctx.escrow.opponent_deposited {
            return Err(EscrowError::AlreadyDeposited);
        }
    }

    let amount = ctx.escrow.wager_unit;
    if ctx.escrow.is_native_sol() {
        if ctx.depositor_lamports < amount {
            return Err(EscrowError::InsufficientFunds);
        }
        if amount > u64::MAX - ctx.escrow_lamports {
            return Err(EscrowError::InsufficientFunds);
        }
        ctx.depositor_lamports = ctx.depositor_lamports - amount;
        ctx.escrow_lamports = ctx.escrow_lamports + amount;
    } else {
        let depositor_balance = match &ctx.depositor_token_account {
            Some(ta) => ta.amount,
            None => {
                return Err(EscrowError::MissingRequiredAccount);
            },
        };
        let escrow_balance = match &ctx.escrow_token_account {
            Some(ta) => ta.amount,
            None => {
                return Err(EscrowError::MissingRequiredAccount);
            },
        };
        if !ctx.token_program_supplied {
            return Err(EscrowError::MissingRequiredAccount);
        }
        if depositor_balance < amount {
            return Err(EscrowError::InsufficientFunds);
        }
        if amount > u64::MAX - escrow_balance {
            return Err(EscrowError::InsufficientFunds);
        }
        ctx.depositor_token_account = Some(TokenAccount { amount: depositor_balance - amount });
        ctx.escrow_token_account = Some(TokenAccount { amount: escrow_balance + amount });
    }

    if is_host {
        ctx.escrow.host_deposited = true;
    } else {
        ctx.escrow.opponent_deposited = true;
    }
    Ok(())
}

} // verus!
