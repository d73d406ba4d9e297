use vstd::prelude::*;

verus! {

/// Every way an operation on a round or an entry can be refused.
///
/// A refused operation leaves the records it was given exactly as they were.
#[derive(Clone, Copy, Debug, PartialEq, Eq, Structural)]
pub enum OracleError {
    /// The round is neither open nor locked.
    RoundNotOpen,
    /// The round no longer takes entries.
    RoundClosed,
    /// The round is already resolved.
    RoundResolved,
    /// The round was canceled.
    RoundCanceled,
    /// The round has left its lobby phase.
    RoundNotAnnounced,
    /// The lobby deadline has not passed yet.
    RoundNotExpired,
    /// The lobby deadline has passed; the round can only be canceled.
    RoundLobbyExpired,
    /// The round was not canceled.
    RoundNotCanceled,
    /// The predicted return lies outside `1..=1_000_000` basis points.
    InvalidPredictionRange,
    /// The stake is below the required minimum. Kept for a minimum-stake
    /// policy; no operation returns it at present.
    BelowMinimumStake,
    /// The caller is not entitled to the operation.
    Unauthorized,
    /// The round has not ended yet.
    RoundNotEnded,
    /// The entry was already paid out or refunded.
    RewardAlreadyClaimed,
    /// A pot, counter or timestamp would leave its integer range.
    Overflow,
    /// An arithmetic error other than overflow. No operation returns it at
    /// present.
    MathError,
}

} // verus!
