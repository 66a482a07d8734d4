use vstd::prelude::*;

use crate::error::EscrowError;
use crate::state::{AccountId, MatchEscrow};

verus! {

/// Accounts taking part in creating an escrow record: the prospective
/// authority, the record to populate (freshly allocated by the platform at
/// the address derived from the match key), and the seed byte of that
/// derivation. The platform guarantees the allocation fails if a record
/// with the same match key already exists.
pub struct InitializeEscrow {
    /// Signer creating the record; becomes its authority.
    pub authority: AccountId,
    /// The record being created.
    pub escrow: MatchEscrow,
    /// Seed byte of the record's derived address.
    pub bump: u8,
}

/// The record that initialization writes: every field from the arguments,
/// the authority from the signer, the seed from the derivation, and every
/// flag cleared.
pub open spec fn initialized_record(
    c: InitializeEscrow,
    match_key: [u8; 32],
    host: AccountId,
    opponent: AccountId,
    wager_unit: u64,
    asset: AccountId,
    treasury: AccountId,
) -> MatchEscrow {
    MatchEscrow {
        match_key,
        host,
        opponent,
        wager_unit,
        asset,
        treasury,
        authority: c.authority,
        host_deposited: false,
        opponent_deposited: false,
        settled: false,
        derivation_seed: c.bump,
    }
}

/// Populates a freshly created escrow record. Never rejects on its own:
/// the one failure of record creation, a duplicate match key, is decided
/// by the platform's address derivation before the record exists.
pub fn handler(
    ctx: &mut InitializeEscrow,
    match_key: [u8; 32],
    host: AccountId,
    opponent: AccountId,
    wager_unit: u64,
    asset: AccountId,
    treasury: AccountId,
) -> (r: Result<(), EscrowError>)
    ensures
        r == Ok::<(), EscrowError>(()),
        final(ctx).escrow == initialized_record(
            *old(ctx),
            match_key,
            host,
            opponent,
            wager_unit,
            asset,
            treasury,
        ),
        final(ctx).authority == old(ctx).authority,
        final(ctx).bump == old(ctx).bump,
{
    ctx.escrow = MatchEscrow {
        match_key,
        host,
        opponent,
        wager_unit,
        asset,
        treasury,
        authority: ctx.authority,
        host_deposited: false,
        opponent_deposited: false,
        settled: false,
        derivation_seed: ctx.bump,
    };
    Ok(())
}

} // verus!
