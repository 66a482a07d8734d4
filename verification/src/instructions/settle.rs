use vstd::prelude::*;

use crate::distribution::{
    compute_distribution, spec_fee, spec_payout, spec_total_pot, Distribution,
};
use crate::error::EscrowError;
use crate::state::{AccountId, MatchEscrow, TokenAccount};

verus! {

/// Accounts taking part in a negotiated settlement: the signing authority,
/// the record with its custody balance, the winner and treasury accounts
/// receiving the split, and the token sub-accounts plus transfer mechanism
/// that only the token path needs.
pub struct Settle {
    /// The signer of the call; must be the record's authority.
    pub authority: AccountId,
    /// The record being finalized.
    pub escrow: MatchEscrow,
    /// The custody account's native-coin balance.
    pub escrow_lamports: u64,
    /// The account supplied to receive the payout.
    pub winner: AccountId,
    /// That account's native-coin balance.
    pub winner_lamports: u64,
    /// The account supplied to receive the fee.
    pub treasury: AccountId,
    /// That account's native-coin balance.
    pub treasury_lamports: u64,
    /// The winner's token sub-account, needed only for a token asset.
    pub winner_token_account: Option<TokenAccount>,
    /// The treasury's token sub-account, needed only for a token asset.
    pub treasury_token_account: Option<TokenAccount>,
    /// The custody token sub-account, needed only for a token asset.
    pub escrow_token_account: Option<TokenAccount>,
    /// Whether the token-transfer mechanism was supplied with the call.
    pub token_program_supplied: bool,
}

/// Why a settlement would be rejected, in the order the checks run, or
/// `None` where it goes through. A settled record is rejected before any
/// look at the arguments; a pot that does not fit 64 bits, a short custody
/// balance and a receiving balance the split would not fit in are all
/// folded into `InsufficientFunds`.
pub open spec fn settle_outcome(c: Settle, winner: AccountId) -> Option<EscrowError> {
    let e = c.escrow;
    if c.authority != e.authority {
        Some(EscrowError::NotAuthorized)
    } else if e.settled {
        Some(EscrowError::AlreadySettled)
    } else if !e.spec_is_participant(winner) {
        Some(EscrowError::InvalidWinner)
    } else if !e.spec_funded() {
        Some(EscrowError::EscrowNotFunded)
    } else if c.winner != winner {
        Some(EscrowError::InvalidWinner)
    } else if c.treasury != e.treasury {
        Some(EscrowError::NotAuthorized)
    } else if spec_total_pot(e.wager_unit) > u64::MAX {
        Some(EscrowError::InsufficientFunds)
    } else if e.spec_is_native() {
        if c.escrow_lamports < spec_total_pot(e.wager_unit) {
            Some(EscrowError::InsufficientFunds)
        } else if c.winner_lamports + spec_payout(e.wager_unit) > u64::MAX {
            Some(EscrowError::InsufficientFunds)
        } else if c.treasury_lamports + spec_fee(e.wager_unit) > u64::MAX {
            Some(EscrowError::InsufficientFunds)
        } else {
            None
        }
    } else {
        if c.escrow_token_account is None || c.winner_token_account is None
            || c.treasury_token_account is None || !c.token_program_supplied {
            Some(EscrowError::MissingRequiredAccount)
        } else if c.escrow_token_account->Some_0.amount < spec_total_pot(e.wager_unit) {
            Some(EscrowError::InsufficientFunds)
        } else if c.winner_token_account->Some_0.amount + spec_payout(e.wager_unit) > u64::MAX {
            Some(EscrowError::InsufficientFunds)
        } else if c.treasury_token_account->Some_0.amount + spec_fee(e.wager_unit) > u64::MAX {
            Some(EscrowError::InsufficientFunds)
        } else {
            None
        }
    }
}

/// The state after a settlement that went through: the whole pot left
/// custody along the path the asset tag selects, the payout reached the
/// winner, the fee reached the treasury, and the record is terminally
/// settled.
pub open spec fn settle_result(c: Settle) -> Settle {
    let e = c.escrow;
    if e.spec_is_native() {
        Settle {
            escrow: MatchEscrow { settled: true, ..e },
            escrow_lamports: (c.escrow_lamports - spec_total_pot(e.wager_unit)) as u64,
            winner_lamports: (c.winner_lamports + spec_payout(e.wager_unit)) as u64,
            treasury_lamports: (c.treasury_lamports + spec_fee(e.wager_unit)) as u64,
            ..c
        }
    } else {
        Settle {
            escrow: MatchEscrow { settled: true, ..e },
            escrow_token_account: Some(
                TokenAccount {
                    amount: (c.escrow_token_account->Some_0.amount - spec_total_pot(
                        e.wager_unit,
                    )) as u64,
                },
            ),
            winner_token_account: Some(
                TokenAccount {
                    amount: (c.winner_token_account->Some_0.amount + spec_payout(
                        e.wager_unit,
                    )) as u64,
                },
            ),
            treasury_token_account: Some(
                TokenAccount {
                    amount: (c.treasury_token_account->Some_0.amount + spec_fee(
                        e.wager_unit,
                    )) as u64,
                },
            ),
            ..c
        }
    }
}

/// A settled record rejects any further settlement as `AlreadySettled`,
/// whatever winner is named and whatever else the call supplies.
pub proof fn lemma_settle_terminal(c: Settle, winner: AccountId)
    requires
        c.authority == c.escrow.authority,
        c.escrow.settled,
    ensures
        settle_outcome(c, winner) == Some(EscrowError::AlreadySettled),
{
}

/// A live record that is not yet fully funded rejects settlement as
/// `EscrowNotFunded`, whichever participant is named winner.
pub proof fn lemma_settle_requires_funding(c: Settle, winner: AccountId)
    requires
        c.authority == c.escrow.authority,
        !c.escrow.settled,
        c.escrow.spec_is_participant(winner),
        !c.escrow.spec_funded(),
    ensures
        settle_outcome(c, winner) == Some(EscrowError::EscrowNotFunded),
{
}

/// A winner who is neither host nor opponent is rejected as
/// `InvalidWinner` on any live record.
pub proof fn lemma_settle_invalid_winner(c: Settle, winner: AccountId)
    requires
        c.authority == c.escrow.authority,
        !c.escrow.settled,
        !c.escrow.spec_is_participant(winner),
    ensures
        settle_outcome(c, winner) == Some(EscrowError::InvalidWinner),
{
}

/// For a token-asset record, a settlement missing any token sub-account
/// or the transfer mechanism is rejected as `MissingRequiredAccount`.
pub proof fn lemma_settle_requires_token_accounts(c: Settle, winner: AccountId)
    requires
        c.authority == c.escrow.authority,
        !c.escrow.settled,
        c.escrow.spec_is_participant(winner),
        c.escrow.spec_funded(),
        c.winner == winner,
        c.treasury == c.escrow.treasury,
        spec_total_pot(c.escrow.wager_unit) <= u64::MAX,
        !c.escrow.spec_is_native(),
        c.escrow_token_account is None || c.winner_token_account is None
            || c.treasury_token_account is None || !c.token_program_supplied,
    ensures
        settle_outcome(c, winner) == Some(EscrowError::MissingRequiredAccount),
{
}

/// A settlement that goes through conserves money: what leaves custody is
/// exactly what the winner and the treasury together receive — the whole
/// pot, never more, on whichever path the asset tag selects.
pub proof fn lemma_settle_conserves_funds(c: Settle, winner: AccountId)
    requires
        settle_outcome(c, winner) is None,
    ensures
        c.escrow.spec_is_native() ==> c.escrow_lamports - settle_result(c).escrow_lamports
            == (settle_result(c).winner_lamports - c.winner_lamports) + (settle_result(
            c,
        ).treasury_lamports - c.treasury_lamports),
        c.escrow.spec_is_native() ==> c.escrow_lamports - settle_result(c).escrow_lamports
            == spec_total_pot(c.escrow.wager_unit),
        !c.escrow.spec_is_native() ==> c.escrow_token_account->Some_0.amount - settle_result(
            c,
        ).escrow_token_account->Some_0.amount == (settle_result(
            c,
        ).winner_token_account->Some_0.amount - c.winner_token_account->Some_0.amount)
            + (settle_result(c).treasury_token_account->Some_0.amount
            - c.treasury_token_account->Some_0.amount),
        !c.escrow.spec_is_native() ==> c.escrow_token_account->Some_0.amount - settle_result(
            c,
        ).escrow_token_account->Some_0.amount == spec_total_pot(c.escrow.wager_unit),
{
    crate::distribution::lemma_distribution_conserves_pot(c.escrow.wager_unit);
}

/// Pays the pot out for a named winner and terminally settles the record;
/// every transfer leg and the settled flag commit together or not at all.
pub fn handler(ctx: &mut Settle, winner: AccountId) -> (r: Result<(), EscrowError>)
    ensures
        settle_outcome(*old(ctx), winner) is None ==> r == Ok::<(), EscrowError>(()) && *final(ctx)
            == settle_result(*old(ctx)),
        settle_outcome(*old(ctx), winner) matches Some(e) ==> r == Err::<(), EscrowError>(e)
            && *final(ctx) == *old(ctx),
{
    if ctx.authority != ctx.escrow.authority {
        return Err(EscrowError::NotAuthorized);
    }
    if ctx.escrow.settled {
        return Err(EscrowError::AlreadySettled);
    }
    if !(winner == ctx.escrow.host || winner == ctx.escrow.opponent) {
        return Err(EscrowError::InvalidWinner);
    }
    if !(ctx.escrow.host_deposited && ctx.escrow.opponent_deposited) {
        return Err(EscrowError::EscrowNotFunded);
    }
    if ctx.winner != winner {
        return Err(EscrowError::InvalidWinner);
    }
    if ctx.treasury != ctx.escrow.treasury {
        return Err(EscrowError::NotAuthorized);
    }

    let dist: Distribution = match compute_distribution(ctx.escrow.wager_unit) {
        Ok(d) => d,
        Err(e) => {
            return Err(e);
        },
    };

    if ctx.escrow.is_native_sol() {
        if ctx.escrow_lamports < dist.total_pot {
            return Err(EscrowError::InsufficientFunds);
        }
        if dist.payout > u64::MAX - ctx.winner_lamports {
            return Err(EscrowError::InsufficientFunds);
        }
        if dist.fee > u64::MAX - ctx.treasury_lamports {
            return Err(EscrowError::InsufficientFunds);
        }
        ctx.escrow_lamports = ctx.escrow_lamports - dist.payout;
        ctx.winner_lamports = ctx.winner_lamports + dist.payout;
        ctx.escrow_lamports = ctx.escrow_lamports - dist.fee;
        ctx.treasury_lamports = ctx.treasury_lamports + dist.fee;
    } else {
        let escrow_balance = match &ctx.escrow_token_account {
            Some(ta) => ta.amount,
            None => {
                return Err(EscrowError::MissingRequiredAccount);
            },
        };
        let winner_balance = match &ctx.winner_token_account {
            Some(ta) => ta.amount,
            None => {
                return Err(EscrowError::MissingRequiredAccount);
            },
        };
        let treasury_balance = match &ctx.treasury_token_account {
            Some(ta) => ta.amount,
            None => {
                return Err(EscrowError::MissingRequiredAccount);
            },
        };
        if !ctx.token_program_supplied {
            return Err(EscrowError::MissingRequiredAccount);
        }
        if escrow_balance < dist.total_pot {
            return Err(EscrowError::InsufficientFunds);
        }
        if dist.payout > u64::MAX - winner_balance {
            return Err(EscrowError::InsufficientFunds);
        }
        if dist.fee > u64::MAX - treasury_balance {
            return Err(EscrowError::InsufficientFunds);
        }
        ctx.escrow_token_account = Some(
            TokenAccount { amount: escrow_balance - dist.payout - dist.fee },
        );
        ctx.winner_token_account = Some(TokenAccount { amount: winner_balance + dist.payout });
        ctx.treasury_token_account = Some(TokenAccount { amount: treasury_balance + dist.fee });
    }

    ctx.escrow.settled = true;
    Ok(())
}

} // verus!
