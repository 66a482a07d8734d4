use vstd::prelude::*;

verus! {

/// A 32-byte ledger account identifier. Participants, the treasury, the
/// authority and token mints are all named by values of this type.
#[derive(Clone, Copy, Debug)]
pub struct AccountId {
    pub bytes: [u8; 32],
}

impl AccountId {
    /// The all-zero identifier: the sentinel that, used as an asset tag,
    /// selects the native coin rather than a fungible token.
    pub open spec fn spec_is_zero(&self) -> bool {
        forall|i: int| 0 <= i < 32 ==> self.bytes@[i] == 0
    }

    /// Builds the all-zero sentinel identifier.
    pub fn zero() -> (r: AccountId)
        ensures
            r.spec_is_zero(),
    {
        AccountId { bytes: [0u8; 32] }
    }

    /// Decides whether this identifier is the all-zero sentinel.
    pub fn is_zero(&self) -> (r: bool)
        ensures
            r == self.spec_is_zero(),
    {
        let mut i: usize = 0;
        while i < 32
            invariant
                0 <= i <= 32,
                forall|j: int| 0 <= j < i ==> self.bytes@[j] == 0,
            decreases 32 - i,
        {
            if self.bytes[i] != 0 {
                return false;
            }
            i += 1;
        }
        true
    }
}

impl PartialEq for AccountId {
    fn eq(&self, other: &AccountId) -> (r: bool) {
        let mut i: usize = 0;
        while i < 32
            invariant
                0 <= i <= 32,
                forall|j: int| 0 <= j < i ==> self.bytes@[j] == other.bytes@[j],
            decreases 32 - i,
        {
            if self.bytes[i] != other.bytes[i] {
                return false;
            }
            i += 1;
        }
        proof {
            assert(self.bytes =~= other.bytes);
        }
        true
    }
}

impl vstd::std_specs::cmp::PartialEqSpecImpl for AccountId {
    open spec fn obeys_eq_spec() -> bool {
        true
    }

    open spec fn eq_spec(&self, other: &AccountId) -> bool {
        self.bytes == other.bytes
    }
}

/// The balance of one token sub-account, in the token's base units. Only
/// the balance takes part in the engine's decisions; ownership and mint
/// checks on sub-accounts are the platform's.
#[derive(Clone, Copy, Debug, PartialEq, Eq, Structural)]
pub struct TokenAccount {
    pub amount: u64,
}

/// The persisted escrow state for one match: one record per match, living
/// beside the custody balance that holds the pooled wagers.
#[derive(Clone, Copy, Debug)]
pub struct MatchEscrow {
    /// Fixed-size cryptographic hash committing to the external match
    /// identifier; the record's address is derived from it, so no two
    /// records may share it.
    pub match_key: [u8; 32],
    /// Host player's account.
    pub host: AccountId,
    /// Opponent player's account.
    pub opponent: AccountId,
    /// Amount each participant must deposit, in the asset's smallest unit.
    pub wager_unit: u64,
    /// Asset tag: the all-zero sentinel selects the native coin, anything
    /// else names the mint of a fungible token.
    pub asset: AccountId,
    /// Account receiving the finalization fee.
    pub treasury: AccountId,
    /// Controlling signer; only this account may confirm deposits or
    /// finalize the record.
    pub authority: AccountId,
    /// Whether the host's wager has been deposited or confirmed.
    pub host_deposited: bool,
    /// Whether the opponent's wager has been deposited or confirmed.
    pub opponent_deposited: bool,
    /// Whether the record has been finalized; permanently terminal.
    pub settled: bool,
    /// Byte used to reconstruct the record's derived address.
    pub derivation_seed: u8,
}

impl MatchEscrow {
    /// The record holds native coin rather than a fungible token.
    pub open spec fn spec_is_native(&self) -> bool {
        self.asset.spec_is_zero()
    }

    /// True if this escrow uses the native coin (not a fungible token).
    pub fn is_native_sol(&self) -> (r: bool)
        ensures
            r == self.spec_is_native(),
    {
        self.asset.is_zero()
    }

    /// Whether `key` names one of the two participants.
    pub open spec fn spec_is_participant(&self, key: AccountId) -> bool {
        key == self.host || key == self.opponent
    }

    /// The deposit flag belonging to `key`. The host's flag answers for a
    /// key equal to the host, the opponent's flag for any other key.
    pub open spec fn spec_deposited(&self, key: AccountId) -> bool {
        if key == self.host {
            self.host_deposited
        } else {
            self.opponent_deposited
        }
    }

    /// The record with the deposit flag belonging to `key` set.
    pub open spec fn spec_mark_deposited(&self, key: AccountId) -> MatchEscrow {
        if key == self.host {
            MatchEscrow { host_deposited: true, ..*self }
        } else {
            MatchEscrow { opponent_deposited: true, ..*self }
        }
    }

    /// Both wagers are in: the record may be finalized.
    pub open spec fn spec_funded(&self) -> bool {
        self.host_deposited && self.opponent_deposited
    }
}

} // verus!
