use match_escrow::error::EscrowError;
use match_escrow::instructions::confirm_deposit::ConfirmDeposit;
use match_escrow::instructions::deposit::Deposit;
use match_escrow::instructions::forfeit::Forfeit;
use match_escrow::instructions::initialize::InitializeEscrow;
use match_escrow::instructions::settle::Settle;
use match_escrow::state::{AccountId, MatchEscrow, TokenAccount};
use match_escrow::{confirm_deposit, deposit, forfeit, initialize_escrow, settle};

fn acct(tag: u8) -> AccountId {
    AccountId { bytes: [tag; 32] }
}

const HOST: u8 = 1;
const OPPONENT: u8 = 2;
const TREASURY: u8 = 3;
const AUTHORITY: u8 = 4;
const STRANGER: u8 = 9;
const MINT: u8 = 7;

const WAGER: u64 = 1_000_000_000;

fn native_record() -> MatchEscrow {
    let mut ctx = InitializeEscrow {
        authority: acct(AUTHORITY),
        escrow: MatchEscrow {
            match_key: [0; 32],
            host: AccountId::zero(),
            opponent: AccountId::zero(),
            wager_unit: 0,
            asset: AccountId::zero(),
            treasury: AccountId::zero(),
            authority: AccountId::zero(),
            host_deposited: false,
            opponent_deposited: false,
            settled: false,
            derivation_seed: 0,
        },
        bump: 254,
    };
    let r = initialize_escrow(
        &mut ctx,
        [5; 32],
        acct(HOST),
        acct(OPPONENT),
        WAGER,
        AccountId::zero(),
        acct(TREASURY),
    );
    assert_eq!(r, Ok(()));
    ctx.escrow
}

fn token_record() -> MatchEscrow {
    let mut e = native_record();
    e.asset = acct(MINT);
    e
}

fn funded(mut e: MatchEscrow) -> MatchEscrow {
    e.host_deposited = true;
    e.opponent_deposited = true;
    e
}

fn settle_ctx(e: MatchEscrow) -> Settle {
    Settle {
        authority: acct(AUTHORITY),
        escrow: e,
        escrow_lamports: 2 * WAGER,
        winner: acct(HOST),
        winner_lamports: 50,
        treasury: acct(TREASURY),
        treasury_lamports: 60,
        winner_token_account: None,
        treasury_token_account: None,
        escrow_token_account: None,
        token_program_supplied: false,
    }
}

fn forfeit_ctx(e: MatchEscrow) -> Forfeit {
    Forfeit {
        authority: acct(AUTHORITY),
        escrow: e,
        escrow_lamports: 2 * WAGER,
        winner: acct(OPPONENT),
        winner_lamports: 50,
        treasury: acct(TREASURY),
        treasury_lamports: 60,
        winner_token_account: None,
        treasury_token_account: None,
        escrow_token_account: None,
        token_program_supplied: false,
    }
}

#[test]
fn account_identifier_equality() {
    assert!(acct(HOST) == acct(HOST));
    assert!(acct(HOST) != acct(OPPONENT));
    assert!(AccountId::zero().is_zero());
    assert!(!acct(HOST).is_zero());
}

#[test]
fn initialize_populates_record() {
    let e = native_record();
    assert_eq!(e.match_key, [5; 32]);
    assert_eq!(e.host, acct(HOST));
    assert_eq!(e.opponent, acct(OPPONENT));
    assert_eq!(e.wager_unit, WAGER);
    assert!(e.asset.is_zero());
    assert!(e.is_native_sol());
    assert_eq!(e.treasury, acct(TREASURY));
    assert_eq!(e.authority, acct(AUTHORITY));
    assert!(!e.host_deposited);
    assert!(!e.opponent_deposited);
    assert!(!e.settled);
    assert_eq!(e.derivation_seed, 254);
}

#[test]
fn token_record_is_not_native() {
    let e = token_record();
    assert!(!e.is_native_sol());
}

#[test]
fn deposit_native_moves_wager_and_sets_flag() {
    let mut ctx = Deposit {
        depositor: acct(HOST),
        depositor_lamports: WAGER + 25,
        escrow: native_record(),
        escrow_lamports: 10,
        depositor_token_account: None,
        escrow_token_account: None,
        token_program_supplied: false,
    };
    assert_eq!(deposit(&mut ctx), Ok(()));
    assert_eq!(ctx.depositor_lamports, 25);
    assert_eq!(ctx.escrow_lamports, WAGER + 10);
    assert!(ctx.escrow.host_deposited);
    assert!(!ctx.escrow.opponent_deposited);
    assert!(!ctx.escrow.settled);
}

#[test]
fn deposit_twice_same_participant_fails() {
    let mut ctx = Deposit {
        depositor: acct(OPPONENT),
        depositor_lamports: 3 * WAGER,
        escrow: native_record(),
        escrow_lamports: 0,
        depositor_token_account: None,
        escrow_token_account: None,
        token_program_supplied: false,
    };
    assert_eq!(deposit(&mut ctx), Ok(()));
    let balance_after_first = ctx.depositor_lamports;
    let custody_after_first = ctx.escrow_lamports;

    assert_eq!(deposit(&mut ctx), Err(EscrowError::AlreadyDeposited));
    assert_eq!(ctx.depositor_lamports, balance_after_first);
    assert_eq!(ctx.escrow_lamports, custody_after_first);
    assert!(ctx.escrow.opponent_deposited);
    assert!(!ctx.escrow.host_deposited);
}

#[test]
fn deposit_by_stranger_is_not_authorized() {
    let mut ctx = Deposit {
        depositor: acct(STRANGER),
        depositor_lamports: 3 * WAGER,
        escrow: native_record(),
        escrow_lamports: 0,
        depositor_token_account: None,
        escrow_token_account: None,
        token_program_supplied: false,
    };
    assert_eq!(deposit(&mut ctx), Err(EscrowError::NotAuthorized));
    assert_eq!(ctx.depositor_lamports, 3 * WAGER);
    assert_eq!(ctx.escrow_lamports, 0);
}

#[test]
fn deposit_after_settlement_fails() {
    let mut e = funded(native_record());
    e.settled = true;
    let mut ctx = Deposit {
        depositor: acct(HOST),
        depositor_lamports: 3 * WAGER,
        escrow: e,
        escrow_lamports: 0,
        depositor_token_account: None,
        escrow_token_account: None,
        token_program_supplied: false,
    };
    assert_eq!(deposit(&mut ctx), Err(EscrowError::AlreadySettled));
}

#[test]
fn deposit_short_balance_is_insufficient_funds() {
    let mut ctx = Deposit {
        depositor: acct(HOST),
        depositor_lamports: WAGER - 1,
        escrow: native_record(),
        escrow_lamports: 0,
        depositor_token_account: None,
        escrow_token_account: None,
        token_program_supplied: false,
    };
    assert_eq!(deposit(&mut ctx), Err(EscrowError::InsufficientFunds));
    assert_eq!(ctx.depositor_lamports, WAGER - 1);
    assert_eq!(ctx.escrow_lamports, 0);
    assert!(!ctx.escrow.host_deposited);
}

#[test]
fn deposit_token_moves_token_balance() {
    let mut ctx = Deposit {
        depositor: acct(HOST),
        depositor_lamports: 5,
        escrow: token_record(),
        escrow_lamports: 11,
        depositor_token_account: Some(TokenAccount { amount: WAGER + 40 }),
        escrow_token_account: Some(TokenAccount { amount: 2 }),
        token_program_supplied: true,
    };
    assert_eq!(deposit(&mut ctx), Ok(()));
    assert_eq!(ctx.depositor_token_account.unwrap().amount, 40);
    assert_eq!(ctx.escrow_token_account.unwrap().amount, WAGER + 2);
    // The native balances are untouched on the token path.
    assert_eq!(ctx.depositor_lamports, 5);
    assert_eq!(ctx.escrow_lamports, 11);
    assert!(ctx.escrow.host_deposited);
}

#[test]
fn deposit_token_without_sub_accounts_fails() {
    let mut ctx = Deposit {
        depositor: acct(HOST),
        depositor_lamports: 3 * WAGER,
        escrow: token_record(),
        escrow_lamports: 0,
        depositor_token_account: None,
        escrow_token_account: Some(TokenAccount { amount: 0 }),
        token_program_supplied: true,
    };
    assert_eq!(deposit(&mut ctx), Err(EscrowError::MissingRequiredAccount));
    assert!(!ctx.escrow.host_deposited);
    assert_eq!(ctx.escrow_token_account.unwrap().amount, 0);

    let mut ctx = Deposit {
        depositor: acct(HOST),
        depositor_lamports: 3 * WAGER,
        escrow: token_record(),
        escrow_lamports: 0,
        depositor_token_account: Some(TokenAccount { amount: 3 * WAGER }),
        escrow_token_account: Some(TokenAccount { amount: 0 }),
        token_program_supplied: false,
    };
    assert_eq!(deposit(&mut ctx), Err(EscrowError::MissingRequiredAccount));
    assert!(!ctx.escrow.host_deposited);
    assert_eq!(ctx.depositor_token_account.unwrap().amount, 3 * WAGER);
}

#[test]
fn confirm_deposit_sets_flag_without_moving_funds() {
    let mut ctx = ConfirmDeposit { authority: acct(AUTHORITY), escrow: native_record() };
    assert_eq!(confirm_deposit(&mut ctx, acct(OPPONENT)), Ok(()));
    assert!(ctx.escrow.opponent_deposited);
    assert!(!ctx.escrow.host_deposited);
}

#[test]
fn confirm_deposit_twice_fails() {
    let mut ctx = ConfirmDeposit { authority: acct(AUTHORITY), escrow: native_record() };
    assert_eq!(confirm_deposit(&mut ctx, acct(HOST)), Ok(()));
    assert_eq!(confirm_deposit(&mut ctx, acct(HOST)), Err(EscrowError::AlreadyDeposited));
    assert!(ctx.escrow.host_deposited);
    assert!(!ctx.escrow.opponent_deposited);
}

#[test]
fn confirm_deposit_needs_the_authority() {
    let mut ctx = ConfirmDeposit { authority: acct(STRANGER), escrow: native_record() };
    assert_eq!(confirm_deposit(&mut ctx, acct(HOST)), Err(EscrowError::NotAuthorized));
    assert!(!ctx.escrow.host_deposited);
}

#[test]
fn confirm_deposit_rejects_stranger_depositor() {
    let mut ctx = ConfirmDeposit { authority: acct(AUTHORITY), escrow: native_record() };
    assert_eq!(confirm_deposit(&mut ctx, acct(STRANGER)), Err(EscrowError::NotAuthorized));
}

#[test]
fn settle_native_pays_winner_and_treasury() {
    let mut ctx = settle_ctx(funded(native_record()));
    assert_eq!(settle(&mut ctx, acct(HOST)), Ok(()));
    assert_eq!(ctx.escrow_lamports, 0);
    assert_eq!(ctx.winner_lamports, 1_800_000_000 + 50);
    assert_eq!(ctx.treasury_lamports, 200_000_000 + 60);
    assert!(ctx.escrow.settled);
}

#[test]
fn settle_before_funding_fails() {
    let mut e = native_record();
    e.host_deposited = true;
    let mut ctx = settle_ctx(e);
    assert_eq!(settle(&mut ctx, acct(HOST)), Err(EscrowError::EscrowNotFunded));
    assert!(!ctx.escrow.settled);
    assert_eq!(ctx.escrow_lamports, 2 * WAGER);
}

#[test]
fn settle_twice_fails_regardless_of_arguments() {
    let mut ctx = settle_ctx(funded(native_record()));
    assert_eq!(settle(&mut ctx, acct(HOST)), Ok(()));
    let won = ctx.winner_lamports;
    // Even a call whose winner is nonsense reports the settled state.
    assert_eq!(settle(&mut ctx, acct(STRANGER)), Err(EscrowError::AlreadySettled));
    assert_eq!(settle(&mut ctx, acct(OPPONENT)), Err(EscrowError::AlreadySettled));
    assert_eq!(ctx.winner_lamports, won);
}

#[test]
fn settle_invalid_winner_fails() {
    let mut ctx = settle_ctx(funded(native_record()));
    assert_eq!(settle(&mut ctx, acct(STRANGER)), Err(EscrowError::InvalidWinner));
    assert!(!ctx.escrow.settled);
}

#[test]
fn settle_needs_the_authority() {
    let mut ctx = settle_ctx(funded(native_record()));
    ctx.authority = acct(STRANGER);
    assert_eq!(settle(&mut ctx, acct(HOST)), Err(EscrowError::NotAuthorized));
}

#[test]
fn settle_winner_account_must_match() {
    let mut ctx = settle_ctx(funded(native_record()));
    ctx.winner = acct(OPPONENT);
    assert_eq!(settle(&mut ctx, acct(HOST)), Err(EscrowError::InvalidWinner));
}

#[test]
fn settle_treasury_account_must_match() {
    let mut ctx = settle_ctx(funded(native_record()));
    ctx.treasury = acct(STRANGER);
    assert_eq!(settle(&mut ctx, acct(HOST)), Err(EscrowError::NotAuthorized));
}

#[test]
fn settle_short_custody_is_insufficient_funds() {
    let mut ctx = settle_ctx(funded(native_record()));
    ctx.escrow_lamports = 2 * WAGER - 1;
    assert_eq!(settle(&mut ctx, acct(HOST)), Err(EscrowError::InsufficientFunds));
    assert!(!ctx.escrow.settled);
    assert_eq!(ctx.escrow_lamports, 2 * WAGER - 1);
}

#[test]
fn settle_pot_overflow_is_insufficient_funds() {
    let mut e = funded(native_record());
    e.wager_unit = u64::MAX / 2 + 1;
    let mut ctx = settle_ctx(e);
    assert_eq!(settle(&mut ctx, acct(HOST)), Err(EscrowError::InsufficientFunds));
    assert!(!ctx.escrow.settled);
}

#[test]
fn settle_token_without_sub_accounts_fails() {
    let mut ctx = settle_ctx(funded(token_record()));
    ctx.escrow_token_account = Some(TokenAccount { amount: 2 * WAGER });
    ctx.winner_token_account = Some(TokenAccount { amount: 0 });
    ctx.treasury_token_account = None;
    ctx.token_program_supplied = true;
    assert_eq!(settle(&mut ctx, acct(HOST)), Err(EscrowError::MissingRequiredAccount));
    assert!(!ctx.escrow.settled);
    assert_eq!(ctx.escrow_token_account.unwrap().amount, 2 * WAGER);
    assert_eq!(ctx.winner_token_account.unwrap().amount, 0);
}

#[test]
fn settle_token_pays_token_accounts() {
    let mut ctx = settle_ctx(funded(token_record()));
    ctx.escrow_token_account = Some(TokenAccount { amount: 2 * WAGER + 9 });
    ctx.winner_token_account = Some(TokenAccount { amount: 1 });
    ctx.treasury_token_account = Some(TokenAccount { amount: 2 });
    ctx.token_program_supplied = true;
    assert_eq!(settle(&mut ctx, acct(HOST)), Ok(()));
    assert_eq!(ctx.escrow_token_account.unwrap().amount, 9);
    assert_eq!(ctx.winner_token_account.unwrap().amount, 1_800_000_000 + 1);
    assert_eq!(ctx.treasury_token_account.unwrap().amount, 200_000_000 + 2);
    // The native balances are untouched on the token path.
    assert_eq!(ctx.escrow_lamports, 2 * WAGER);
    assert!(ctx.escrow.settled);
}

#[test]
fn forfeit_awards_the_other_participant() {
    let mut ctx = forfeit_ctx(funded(native_record()));
    assert_eq!(forfeit(&mut ctx, acct(HOST)), Ok(()));
    assert_eq!(ctx.escrow_lamports, 0);
    assert_eq!(ctx.winner_lamports, 1_800_000_000 + 50);
    assert_eq!(ctx.treasury_lamports, 200_000_000 + 60);
    assert!(ctx.escrow.settled);
}

#[test]
fn forfeit_winner_account_must_be_the_other_participant() {
    let mut ctx = forfeit_ctx(funded(native_record()));
    ctx.winner = acct(HOST);
    assert_eq!(forfeit(&mut ctx, acct(HOST)), Err(EscrowError::InvalidWinner));
}

#[test]
fn forfeit_invalid_forfeiter_fails() {
    let mut ctx = forfeit_ctx(funded(native_record()));
    assert_eq!(forfeit(&mut ctx, acct(STRANGER)), Err(EscrowError::InvalidForfeiter));
    assert!(!ctx.escrow.settled);
    assert_eq!(ctx.escrow_lamports, 2 * WAGER);
}

#[test]
fn forfeit_before_funding_fails() {
    let mut e = native_record();
    e.opponent_deposited = true;
    let mut ctx = forfeit_ctx(e);
    assert_eq!(forfeit(&mut ctx, acct(HOST)), Err(EscrowError::EscrowNotFunded));
}

#[test]
fn forfeit_after_settlement_fails() {
    let mut e = funded(native_record());
    e.settled = true;
    let mut ctx = forfeit_ctx(e);
    assert_eq!(forfeit(&mut ctx, acct(HOST)), Err(EscrowError::AlreadySettled));
    assert_eq!(forfeit(&mut ctx, acct(STRANGER)), Err(EscrowError::AlreadySettled));
    assert_eq!(ctx.escrow_lamports, 2 * WAGER);
}

#[test]
fn forfeit_and_settle_pay_identical_amounts() {
    let mut s = settle_ctx(funded(native_record()));
    assert_eq!(settle(&mut s, acct(OPPONENT)), Err(EscrowError::InvalidWinner));
    s.winner = acct(OPPONENT);
    assert_eq!(settle(&mut s, acct(OPPONENT)), Ok(()));

    let mut f = forfeit_ctx(funded(native_record()));
    assert_eq!(forfeit(&mut f, acct(HOST)), Ok(()));

    assert_eq!(s.escrow_lamports, f.escrow_lamports);
    assert_eq!(s.winner_lamports, f.winner_lamports);
    assert_eq!(s.treasury_lamports, f.treasury_lamports);
    assert_eq!(s.winner, f.winner);
}
