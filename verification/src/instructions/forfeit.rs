use vstd::prelude::*;

use crate::distribution::{
    compute_distribution, spec_fee, spec_payout, spec_total_pot, Distribution,
};
use crate::error::EscrowError;
use crate::instructions::settle::{settle_outcome, settle_result, Settle};
use crate::state::{AccountId, MatchEscrow, TokenAccount};

verus! {

/// Accounts taking part in a forfeiture: the same set a settlement uses —
/// the signing authority, the record with its custody balance, the winner
/// and treasury accounts, and the token sub-accounts plus transfer
/// mechanism that only the token path needs.
pub struct Forfeit {
    /// The signer of the call; must be the record's authority.
    pub authority: AccountId,
    /// The record being finalized.
    pub escrow: MatchEscrow,
    /// The custody account's native-coin balance.
    pub escrow_lamports: u64,
    /// The account supplied to receive the payout: the other participant.
    pub winner: AccountId,
    /// That account's native-coin balance.
    pub winner_lamports: u64,
    /// The account supplied to receive the fee.
    pub treasury: AccountId,
    /// That account's native-coin balance.
    pub treasury_lamports: u64,
    /// The winner's token sub-account, needed only for a token asset.
    pub winner_token_account: Option<TokenAccount>,
    /// The treasury's token sub-account, needed only for a token asset.
    pub treasury_token_account: Option<TokenAccount>,
    /// The custody token sub-account, needed only for a token asset.
    pub escrow_token_account: Option<TokenAccount>,
    /// Whether the token-transfer mechanism was supplied with the call.
    pub token_program_supplied: bool,
}

/// The participant a forfeiture awards the pot to: the one the forfeiter
/// is not.
pub open spec fn spec_forfeit_winner(e: MatchEscrow, forfeiter: AccountId) -> AccountId {
    if forfeiter == e.host {
        e.opponent
    } else {
        e.host
    }
}

/// Why a forfeiture would be rejected, in the order the checks run, or
/// `None` where it goes through. The precedence and the folding of
/// arithmetic and balance failures into `InsufficientFunds` mirror a
/// settlement's; only the named party differs — the loser, whose opposite
/// must be the supplied winner account.
pub open spec fn forfeit_outcome(c: Forfeit, forfeiter: AccountId) -> Option<EscrowError> {
    let e = c.escrow;
    if c.authority != e.authority {
        Some(EscrowError::NotAuthorized)
    } else if e.settled {
        Some(EscrowError::AlreadySettled)
    } else if !e.spec_is_participant(forfeiter) {
        Some(EscrowError::InvalidForfeiter)
    } else if !e.spec_funded() {
        Some(EscrowError::EscrowNotFunded)
    } else if c.winner != spec_forfeit_winner(e, forfeiter) {
        Some(EscrowError::InvalidWinner)
    } else if c.treasury != e.treasury {
        Some(EscrowError::NotAuthorized)
    } else if spec_total_pot(e.wager_unit) > u64::MAX {
        Some(EscrowError::InsufficientFunds)
    } else if e.spec_is_native() {
        if c.escrow_lamports < spec_total_pot(e.wager_unit) {
            Some(EscrowError::InsufficientFunds)
        } else if c.winner_lamports + spec_payout(e.wager_unit) > u64::MAX {
            Some(EscrowError::InsufficientFunds)
        } else if c.treasury_lamports + spec_fee(e.wager_unit) > u64::MAX {
            Some(EscrowError::InsufficientFunds)
        } else {
            None
        }
    } else {
        if c.escrow_token_account is None || c.winner_token_account is None
            || c.treasury_token_account is None || !c.token_program_supplied {
            Some(EscrowError::MissingRequiredAccount)
        } else if c.escrow_token_account->Some_0.amount < spec_total_pot(e.wager_unit) {
            Some(EscrowError::InsufficientFunds)
        } else if c.winner_token_account->Some_0.amount + spec_payout(e.wager_unit) > u64::MAX {
            Some(EscrowError::InsufficientFunds)
        } else if c.treasury_token_account->Some_0.amount + spec_fee(e.wager_unit) > u64::MAX {
            Some(EscrowError::InsufficientFunds)
        } else {
            None
        }
    }
}

/// The state after a forfeiture that went through: exactly what a
/// settlement naming the derived winner leaves behind — the pot out of
/// custody, the payout with the other participant, the fee with the
/// treasury, the record terminally settled.
pub open spec fn forfeit_result(c: Forfeit) -> Forfeit {
    let e = c.escrow;
    if e.spec_is_native() {
        Forfeit {
            escrow: MatchEscrow { settled: true, ..e },
            escrow_lamports: (c.escrow_lamports - spec_total_pot(e.wager_unit)) as u64,
            winner_lamports: (c.winner_lamports + spec_payout(e.wager_unit)) as u64,
            treasury_lamports: (c.treasury_lamports + spec_fee(e.wager_unit)) as u64,
            ..c
        }
    } else {
        Forfeit {
            escrow: MatchEscrow { settled: true, ..e },
            escrow_token_account: Some(
                TokenAccount {
                    amount: (c.escrow_token_account->Some_0.amount - spec_total_pot(
                        e.wager_unit,
                    )) as u64,
                },
            ),
            winner_token_account: Some(
                TokenAccount {
                    amount: (c.winner_token_account->Some_0.amount + spec_payout(
                        e.wager_unit,
                    )) as u64,
                },
            ),
            treasury_token_account: Some(
                TokenAccount {
                    amount: (c.treasury_token_account->Some_0.amount + spec_fee(
                        e.wager_unit,
                    )) as u64,
                },
            ),
            ..c
        }
    }
}

/// A settled record rejects any forfeiture as `AlreadySettled`, whatever
/// forfeiter is named and whatever else the call supplies.
pub proof fn lemma_forfeit_terminal(c: Forfeit, forfeiter: AccountId)
    requires
        c.authority == c.escrow.authority,
        c.escrow.settled,
    ensures
        forfeit_outcome(c, forfeiter) == Some(EscrowError::AlreadySettled),
{
}

/// A live record that is not yet fully funded rejects forfeiture as
/// `EscrowNotFunded`, whichever participant is named forfeiter.
pub proof fn lemma_forfeit_requires_funding(c: Forfeit, forfeiter: AccountId)
    requires
        c.authority == c.escrow.authority,
        !c.escrow.settled,
        c.escrow.spec_is_participant(forfeiter),
        !c.escrow.spec_funded(),
    ensures
        forfeit_outcome(c, forfeiter) == Some(EscrowError::EscrowNotFunded),
{
}

/// A forfeiter who is neither host nor opponent is rejected as
/// `InvalidForfeiter` on any live record.
pub proof fn lemma_forfeit_invalid_forfeiter(c: Forfeit, forfeiter: AccountId)
    requires
        c.authority == c.escrow.authority,
        !c.escrow.settled,
        !c.escrow.spec_is_participant(forfeiter),
    ensures
        forfeit_outcome(c, forfeiter) == Some(EscrowError::InvalidForfeiter),
{
}

/// For a token-asset record, a forfeiture missing any token sub-account
/// or the transfer mechanism is rejected as `MissingRequiredAccount`.
pub proof fn lemma_forfeit_requires_token_accounts(c: Forfeit, forfeiter: AccountId)
    requires
        c.authority == c.escrow.authority,
        !c.escrow.settled,
        c.escrow.spec_is_participant(forfeiter),
        c.escrow.spec_funded(),
        c.winner == spec_forfeit_winner(c.escrow, forfeiter),
        c.treasury == c.escrow.treasury,
        spec_total_pot(c.escrow.wager_unit) <= u64::MAX,
        !c.escrow.spec_is_native(),
        c.escrow_token_account is None || c.winner_token_account is None
            || c.treasury_token_account is None || !c.token_program_supplied,
    ensures
        forfeit_outcome(c, forfeiter) == Some(EscrowError::MissingRequiredAccount),
{
}

/// Finalization is mutually exclusive: a record that either finalization
/// path has settled rejects both paths from then on as `AlreadySettled`,
/// so at most one settlement or forfeiture can ever succeed per record.
pub proof fn lemma_finalization_exclusive(
    e: MatchEscrow,
    c_settle: Settle,
    c_forfeit: Forfeit,
    winner: AccountId,
    forfeiter: AccountId,
)
    requires
        e.settled,
        c_settle.escrow == e,
        c_settle.authority == e.authority,
        c_forfeit.escrow == e,
        c_forfeit.authority == e.authority,
    ensures
        settle_outcome(c_settle, winner) == Some(EscrowError::AlreadySettled),
        forfeit_outcome(c_forfeit, forfeiter) == Some(EscrowError::AlreadySettled),
{
}

/// Both finalization paths split one pot identically: a forfeiture that
/// goes through settles the custody, winner and treasury balances to
/// exactly the numbers a settlement naming the derived winner settles
/// them to, built from the same shared fee and payout.
pub proof fn lemma_forfeit_matches_settle(c: Forfeit, forfeiter: AccountId, c_settle: Settle)
    requires
        forfeit_outcome(c, forfeiter) is None,
        c_settle == (Settle {
            authority: c.authority,
            escrow: c.escrow,
            escrow_lamports: c.escrow_lamports,
            winner: c.winner,
            winner_lamports: c.winner_lamports,
            treasury: c.treasury,
            treasury_lamports: c.treasury_lamports,
            winner_token_account: c.winner_token_account,
            treasury_token_account: c.treasury_token_account,
            escrow_token_account: c.escrow_token_account,
            token_program_supplied: c.token_program_supplied,
        }),
    ensures
        settle_outcome(c_settle, spec_forfeit_winner(c.escrow, forfeiter)) is None,
        settle_result(c_settle).escrow == forfeit_result(c).escrow,
        settle_result(c_settle).escrow_lamports == forfeit_result(c).escrow_lamports,
        settle_result(c_settle).winner_lamports == forfeit_result(c).winner_lamports,
        settle_result(c_settle).treasury_lamports == forfeit_result(c).treasury_lamports,
        settle_result(c_settle).escrow_token_account == forfeit_result(c).escrow_token_account,
        settle_result(c_settle).winner_token_account == forfeit_result(c).winner_token_account,
        settle_result(c_settle).treasury_token_account == forfeit_result(c).treasury_token_account,
{
}

/// A forfeiture that goes through conserves money: what leaves custody is
/// exactly what the winner and the treasury together receive — the whole
/// pot, never more, on whichever path the asset tag selects.
pub proof fn lemma_forfeit_conserves_funds(c: Forfeit, forfeiter: AccountId)
    requires
        forfeit_outcome(c, forfeiter) is None,
    ensures
        c.escrow.spec_is_native() ==> c.escrow_lamports - forfeit_result(c).escrow_lamports
            == (forfeit_result(c).winner_lamports - c.winner_lamports) + (forfeit_result(
            c,
        ).treasury_lamports - c.treasury_lamports),
        c.escrow.spec_is_native() ==> c.escrow_lamports - forfeit_result(c).escrow_lamports
            == spec_total_pot(c.escrow.wager_unit),
        !c.escrow.spec_is_native() ==> c.escrow_token_account->Some_0.amount - forfeit_result(
            c,
        ).escrow_token_account->Some_0.amount == (forfeit_result(
            c,
        ).winner_token_account->Some_0.amount - c.winner_token_account->Some_0.amount)
            + (forfeit_result(c).treasury_token_account->Some_0.amount
            - c.treasury_token_account->Some_0.amount),
        !c.escrow.spec_is_native() ==> c.escrow_token_account->Some_0.amount - forfeit_result(
            c,
        ).escrow_token_account->Some_0.amount == spec_total_pot(c.escrow.wager_unit),
{
    crate::distribution::lemma_distribution_conserves_pot(c.escrow.wager_unit);
}

/// Awards the pot to the participant the named forfeiter is not, then
/// terminally settles the record; every transfer leg and the settled flag
/// commit together or not at all.
pub fn handler(ctx: &mut Forfeit, forfeiter: AccountId) -> (r: Result<(), EscrowError>)
    ensures
        forfeit_outcome(*old(ctx), forfeiter) is None ==> r == Ok::<(), EscrowError>(())
            && *final(ctx) == forfeit_result(*old(ctx)),
        forfeit_outcome(*old(ctx), forfeiter) matches Some(e) ==> r == Err::<(), EscrowError>(e)
            && *final(ctx) == *old(ctx),
{
    if ctx.authority != ctx.escrow.authority {
        return Err(EscrowError::NotAuthorized);
    }
    if ctx.escrow.settled {
        return Err(EscrowError::AlreadySettled);
    }
    let is_host = forfeiter == ctx.escrow.host;
    let is_opponent = forfeiter == ctx.escrow.opponent;
    if !(is_host || is_opponent) {
        return Err(EscrowError::InvalidForfeiter);
    }
    if !(ctx.escrow.host_deposited && ctx.escrow.opponent_deposited) {
        return Err(EscrowError::EscrowNotFunded);
    }

    // The winner is the other player.
    let winner = if is_host {
        ctx.escrow.opponent
    } else {
        ctx.escrow.host
    };
    if ctx.winner != winner {
        return Err(EscrowError::InvalidWinner);
    }
    if ctx.treasury != ctx.escrow.treasury {
        return Err(EscrowError::NotAuthorized);
    }

    let dist: Distribution = match compute_distribution(ctx.escrow.wager_unit) {
        Ok(d) => d,
        Err(e) => {
            return Err(e);
        },
    };

    if ctx.escrow.is_native_sol() {
        if ctx.escrow_lamports < dist.total_pot {
            return Err(EscrowError::InsufficientFunds);
        }
        if dist.payout > u64::MAX - ctx.winner_lamports {
            return Err(EscrowError::InsufficientFunds);
        }
        if dist.fee > u64::MAX - ctx.treasury_lamports {
            return Err(EscrowError::InsufficientFunds);
        }
        ctx.escrow_lamports = ctx.escrow_lamports - dist.payout;
        ctx.winner_lamports = ctx.winner_lamports + dist.payout;
        ctx.escrow_lamports = ctx.escrow_lamports - dist.fee;
        ctx.treasury_lamports = ctx.treasury_lamports + dist.fee;
    } else {
        let escrow_balance = match &ctx.escrow_token_account {
            Some(ta) => ta.amount,
            None => {
                return Err(EscrowError::MissingRequiredAccount);
            },
        };
        let winner_balance = match &ctx.winner_token_account {
            Some(ta) => ta.amount,
            None => {
                return Err(EscrowError::MissingRequiredAccount);
            },
        };
        let treasury_balance = match &ctx.treasury_token_account {
            Some(ta) => ta.amount,
            None => {
                return Err(EscrowError::MissingRequiredAccount);
            },
        };
        if !ctx.token_program_supplied {
            return Err(EscrowError::MissingRequiredAccount);
        }
        if escrow_balance < dist.total_pot {
            return Err(EscrowError::InsufficientFunds);
        }
        if dist.payout > u64::MAX - winner_balance {
            return Err(EscrowError::InsufficientFunds);
        }
        if dist.fee > u64::MAX - treasury_balance {
            return Err(EscrowError::InsufficientFunds);
        }
        ctx.escrow_token_account = Some(
            TokenAccount { amount: escrow_balance - dist.payout - dist.fee },
        );
        ctx.winner_token_account = Some(TokenAccount { amount: winner_balance + dist.payout });
        ctx.treasury_token_account = Some(TokenAccount { amount: treasury_balance + dist.fee });
    }

    ctx.escrow.settled = true;
    Ok(())
}

} // verus!
