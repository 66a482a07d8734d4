use vstd::prelude::*;

verus! {

/// Every way an escrow operation can be rejected. A rejected operation has
/// no effect at all: the record and every balance stay as they were.
#[derive(Clone, Copy, Debug, PartialEq, Eq, Structural)]
pub enum EscrowError {
    /// Player has already deposited.
    AlreadyDeposited,
    /// The wrong party acted: the signer is not the record's authority
    /// where the authority must sign, the signer is neither participant
    /// where a participant must act, or the supplied treasury account is
    /// not the record's.
    NotAuthorized,
    /// Both players have not deposited yet.
    EscrowNotFunded,
    /// Escrow already settled.
    AlreadySettled,
    /// Winner is neither host nor opponent.
    InvalidWinner,
    /// Forfeiter is neither host nor opponent.
    InvalidForfeiter,
    /// The escrow does not have enough funds, or the pot arithmetic could
    /// not be carried out within the fixed-width balances.
    InsufficientFunds,
    /// A token sub-account needed for a non-native asset is missing.
    MissingRequiredAccount,
}

} // verus!
