use vstd::prelude::*;

verus! {

/// The identity of an account: a participant, the authority, the treasury or
/// a target asset. Two identities are the same when their 32 bytes are.
#[derive(Clone, Copy, Debug, PartialEq, Eq)]
pub struct AccountId {
    pub bytes: [u8; 32],
}

impl AccountId {
    /// The identity made of `bytes`.
    pub fn new(bytes: [u8; 32]) -> (id: AccountId)
        ensures
            id.bytes == bytes,
    {
        AccountId { bytes }
    }

    /// The 32 bytes of the identity.
    pub fn to_bytes(&self) -> (bytes: [u8; 32])
        ensures
            bytes == self.bytes,
    {
        self.bytes
    }

    /// Whether `self` and `other` name the same account.
    pub fn same_as(&self, other: &AccountId) -> (same: bool)
        ensures
            same == (*self == *other),
    {
        let mut i: usize = 0;
        while i < 32
            invariant
                i <= 32,
                forall|j: int| 0 <= j < i ==> self.bytes[j] == other.bytes[j],
            decreases 32 - i,
        {
            if self.bytes[i] != other.bytes[i] {
                return false;
            }
            i += 1;
        }
        proof {
            assert(self.bytes =~= other.bytes);
        }
        true
    }
}

/// The process-wide configuration: who may create and resolve rounds, where
/// fees go, the fee schedule in basis points, and how many rounds were created.
#[derive(Clone, Copy, Debug, PartialEq, Eq)]
pub struct GlobalConfig {
    pub authority: AccountId,
    pub treasury: AccountId,
    pub fee_stakers_bps: u16,
    pub fee_burn_bps: u16,
    pub fee_house_bps: u16,
    pub round_count: u64,
}

/// Where a round stands in its lifecycle.
#[derive(Clone, Copy, Debug, PartialEq, Eq, Structural)]
pub enum RoundStatus {
    Announced,
    Open,
    Locked,
    Resolved,
    Canceled,
}

/// One prediction round.
///
/// While the round is `Announced`, `resolve_time` holds the planned duration
/// and `lock_time` the planned lock offset, both in seconds. From activation
/// on they hold absolute timestamps.
#[derive(Clone, Copy, Debug, PartialEq, Eq)]
pub struct Round {
    pub round_id: u64,
    pub target_token_mint: AccountId,
    pub start_time: i64,
    pub lock_time: i64,
    pub resolve_time: i64,
    pub total_pot: u64,
    pub player_count: u32,
    pub peak_roi_multiplier_bps: u32,
    pub status: RoundStatus,
    pub winner_count: u32,
    pub announce_time: i64,
    pub min_players: u32,
    pub min_pot: u64,
    pub max_lobby_duration: i64,
}

/// One participant's stake in one round.
#[derive(Clone, Copy, Debug, PartialEq, Eq)]
pub struct Entry {
    pub user: AccountId,
    pub round_id: u64,
    pub predicted_roi_bps: u32,
    pub stake_amount: u64,
    pub is_holder: bool,
    pub distance_from_peak_bps: u32,
    pub claimed: bool,
}

} // verus!
