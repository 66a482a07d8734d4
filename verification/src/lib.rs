//! Escrow and settlement engine for two-party wagered matches.
//!
//! One escrow record is created per match. Each participant deposits the
//! same wager into a custody account; once both deposits are confirmed, the
//! controlling authority finalizes the match exactly once, through either a
//! negotiated settlement or a forfeiture, splitting the pooled stake between
//! the winner and a fee-collecting treasury.
//!
//! This crate holds the record state machine and the settlement arithmetic
//! over plain values: account identifiers, balances, and the record fields.
//! The ledger platform around it (account creation, signature checks bound
//! to derived addresses, and the actual fund transfers) supplies those values
//! and applies the state changes this engine decides on.

use vstd::prelude::*;

pub mod constants;
pub mod distribution;
pub mod error;
pub mod instructions;
pub mod state;

use crate::error::EscrowError;
use crate::state::AccountId;

verus! {

/// Creates a new escrow record bound to a match key. The platform has
/// already refused a duplicate match key by the time the record exists,
/// so this call itself always goes through.
pub fn initialize_escrow(
    ctx: &mut instructions::initialize::InitializeEscrow,
    match_key: [u8; 32],
    host: AccountId,
    opponent: AccountId,
    wager_unit: u64,
    asset: AccountId,
    treasury: AccountId,
) -> (r: Result<(), EscrowError>)
    ensures
        r == Ok::<(), EscrowError>(()),
        final(ctx).escrow == instructions::initialize::initialized_record(
            *old(ctx),
            match_key,
            host,
            opponent,
            wager_unit,
            asset,
            treasury,
        ),
        final(ctx).authority == old(ctx).authority,
        final(ctx).bump == old(ctx).bump,
{
    instructions::initialize::handler(ctx, match_key, host, opponent, wager_unit, asset, treasury)
}

/// Moves the signing participant's wager into custody and sets their
/// deposit flag, or rejects the call and changes nothing.
pub fn deposit(ctx: &mut instructions::deposit::Deposit) -> (r: Result<(), EscrowError>)
    ensures
        instructions::deposit::deposit_outcome(*old(ctx)) is None ==> r == Ok::<(), EscrowError>(())
            && *final(ctx) == instructions::deposit::deposit_result(*old(ctx)),
        instructions::deposit::deposit_outcome(*old(ctx)) matches Some(e) ==> r == Err::<
            (),
            EscrowError,
        >(e) && *final(ctx) == *old(ctx),
{
    instructions::deposit::handler(ctx)
}

/// Pays the pot out to a named winner and terminally settles the record,
/// or rejects the call and changes nothing.
pub fn settle(ctx: &mut instructions::settle::Settle, winner: AccountId) -> (r: Result<
    (),
    EscrowError,
>)
    ensures
        instructions::settle::settle_outcome(*old(ctx), winner) is None ==> r == Ok::<
            (),
            EscrowError,
        >(()) && *final(ctx) == instructions::settle::settle_result(*old(ctx)),
        instructions::settle::settle_outcome(*old(ctx), winner) matches Some(e) ==> r == Err::<
            (),
            EscrowError,
        >(e) && *final(ctx) == *old(ctx),
{
    instructions::settle::handler(ctx, winner)
}

/// Awards the pot to the other participant when the named forfeiter loses
/// by default, and terminally settles the record, or rejects the call and
/// changes nothing.
pub fn forfeit(ctx: &mut instructions::forfeit::Forfeit, forfeiter: AccountId) -> (r: Result<
    (),
    EscrowError,
>)
    ensures
        instructions::forfeit::forfeit_outcome(*old(ctx), forfeiter) is None ==> r == Ok::<
            (),
            EscrowError,
        >(()) && *final(ctx) == instructions::forfeit::forfeit_result(*old(ctx)),
        instructions::forfeit::forfeit_outcome(*old(ctx), forfeiter) matches Some(e) ==> r == Err::<
            (),
            EscrowError,
        >(e) && *final(ctx) == *old(ctx),
{
    instructions::forfeit::handler(ctx, forfeiter)
}

/// Sets a participant's deposit flag on the authority's say-so, without
/// moving funds, or rejects the call and changes nothing.
pub fn confirm_deposit(
    ctx: &mut instructions::confirm_deposit::ConfirmDeposit,
    depositor: AccountId,
) -> (r: Result<(), EscrowError>)
    ensures
        instructions::confirm_deposit::confirm_deposit_outcome(*old(ctx), depositor) is None ==> r
            == Ok::<(), EscrowError>(()) && *final(ctx)
            == instructions::confirm_deposit::confirm_deposit_result(*old(ctx), depositor),
        instructions::confirm_deposit::confirm_deposit_outcome(*old(ctx), depositor) matches Some(
            e,
        ) ==> r == Err::<(), EscrowError>(e) && *final(ctx) == *old(ctx),
{
    instructions::confirm_deposit::handler(ctx, depositor)
}

} // verus!
