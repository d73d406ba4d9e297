use vstd::prelude::*;
use crate::errors::OracleError;
use crate::state::{AccountId, Entry, Round, RoundStatus};

verus! {

/// The highest accuracy rank that still wins, in basis points (rank 0 is the
/// most accurate).
pub const WINNER_CUTOFF_BPS: u32 = 1000;

/// The part of the pot that goes to the winners, in basis points.
pub const WINNERS_POOL_BPS: u64 = 8000;

/// Basis points in a whole.
pub const BPS_DENOMINATOR: u64 = 10_000;

/// The number of equal shares that the winners' pool is cut into.
pub const WINNER_SLOTS: u64 = 10;

/// The winners' pool of a pot: 80% of it, rounded down.
pub open spec fn winners_pool(total_pot: u64) -> nat {
    (total_pot as nat * 8000) / 10_000
}

/// What one winning entry is paid: a tenth of the winners' pool, rounded
/// down.
pub open spec fn reward_share(total_pot: u64) -> nat {
    winners_pool(total_pot) / 10
}

/// An accuracy rank within the winning range.
pub open spec fn wins(accuracy_percentile_bps: u32) -> bool {
    accuracy_percentile_bps <= WINNER_CUTOFF_BPS
}

/// What a claim on `entry` pays, or the error that refuses it. The round's
/// status is looked at first, then the entry's flag. A losing rank is paid 0.
pub open spec fn claim_payout(round: Round, entry: Entry, accuracy_percentile_bps: u32) -> Result<
    u64,
    OracleError,
> {
    if round.status != RoundStatus::Resolved {
        Err(OracleError::RoundNotEnded)
    } else if entry.claimed {
        Err(OracleError::RewardAlreadyClaimed)
    } else if wins(accuracy_percentile_bps) {
        Ok(reward_share(round.total_pot) as u64)
    } else {
        Ok(0)
    }
}

/// The entry after a claim: marked as claimed where a winning rank was paid,
/// unchanged otherwise.
pub open spec fn entry_after_claim(
    round: Round,
    entry: Entry,
    accuracy_percentile_bps: u32,
) -> Entry {
    if claim_payout(round, entry, accuracy_percentile_bps) is Ok && wins(
        accuracy_percentile_bps,
    ) {
        Entry { claimed: true, ..entry }
    } else {
        entry
    }
}

/// What a refund of `entry` to `caller` pays back, or the error that refuses
/// it. The round's status is looked at first, then the entry's flag, then the
/// caller.
pub open spec fn refund_payout(round: Round, entry: Entry, caller: AccountId) -> Result<
    u64,
    OracleError,
> {
    if round.status != RoundStatus::Canceled {
        Err(OracleError::RoundNotCanceled)
    } else if entry.claimed {
        Err(OracleError::RewardAlreadyClaimed)
    } else if caller != entry.user {
        Err(OracleError::Unauthorized)
    } else {
        Ok(entry.stake_amount)
    }
}

/// The entry after a refund: marked as claimed where the stake was paid
/// back, unchanged otherwise.
pub open spec fn entry_after_refund(round: Round, entry: Entry, caller: AccountId) -> Entry {
    if refund_payout(round, entry, caller) is Ok {
        Entry { claimed: true, ..entry }
    } else {
        entry
    }
}

/// The reward of one winning entry never exceeds the pot.
pub proof fn lemma_reward_within_pot(total_pot: u64)
    ensures
        reward_share(total_pot) <= winners_pool(total_pot) <= total_pot,
{
}

/// Computes the reward of one winning entry from the pot, with the product
/// taken in 128 bits.
pub fn reward_for(total_pot: u64) -> (reward: u64)
    ensures
        reward == reward_share(total_pot),
{
    let pot: u128 = total_pot as u128;
    let share: u128 = WINNERS_POOL_BPS as u128;
    let whole: u128 = BPS_DENOMINATOR as u128;
    assert(pot * share == total_pot as nat * 8000) by (nonlinear_arith)
        requires
            pot == total_pot,
            share == 8000,
    ;
    let wide: u128 = pot * share / whole;
    proof {
        lemma_reward_within_pot(total_pot);
    }
    let pool: u64 = wide as u64;
    pool / WINNER_SLOTS
}

/// Settles the claim of `entry` on a resolved round and returns the amount to
/// pay out of the round's escrow.
///
/// A rank of at most 1000 basis points wins: the entry is marked as claimed
/// and is paid a tenth of 80% of the pot. Any other rank is paid 0 and the
/// entry stays as it was.
pub fn claim_reward(round: &Round, entry: &mut Entry, accuracy_percentile_bps: u32) -> (res:
    Result<u64, OracleError>)
    ensures
        res == claim_payout(*round, *old(entry), accuracy_percentile_bps),
        *final(entry) == entry_after_claim(*round, *old(entry), accuracy_percentile_bps),
        old(entry).claimed ==> final(entry).claimed,
        res is Ok <==> round.status == RoundStatus::Resolved && !old(entry).claimed,
{
    if round.status != RoundStatus::Resolved {
        return Err(OracleError::RoundNotEnded);
    }
    if entry.claimed {
        return Err(OracleError::RewardAlreadyClaimed);
    }
    if accuracy_percentile_bps <= WINNER_CUTOFF_BPS {
        let reward: u64 = reward_for(round.total_pot);
        entry.claimed = true;
        Ok(reward)
    } else {
        Ok(0)
    }
}

/// Settles the refund of `entry` on a canceled round and returns the amount
/// to pay back out of the round's escrow: the entry's stake.
///
/// Only the participant who placed the entry may ask for it, and only once:
/// the entry is marked as claimed. The round's recorded pot is not touched.
pub fn refund_entry(round: &Round, entry: &mut Entry, caller: AccountId) -> (res: Result<
    u64,
    OracleError,
>)
    ensures
        res == refund_payout(*round, *old(entry), caller),
        *final(entry) == entry_after_refund(*round, *old(entry), caller),
        old(entry).claimed ==> final(entry).claimed,
        res is Ok <==> round.status == RoundStatus::Canceled && !old(entry).claimed && caller
            == old(entry).user,
{
    if round.status != RoundStatus::Canceled {
        return Err(OracleError::RoundNotCanceled);
    }
    if entry.claimed {
        return Err(OracleError::RewardAlreadyClaimed);
    }
    if !caller.same_as(&entry.user) {
        return Err(OracleError::Unauthorized);
    }
    let refund_amount: u64 = entry.stake_amount;
    entry.claimed = true;
    Ok(refund_amount)
}

/// The claimed flag only ever goes from unset to set: a claim or a refund
/// leaves a claimed entry exactly as it is and changes nothing but the flag
/// of an unclaimed one.
pub proof fn law_claimed_never_reverts(
    round: Round,
    entry: Entry,
    accuracy_percentile_bps: u32,
    caller: AccountId,
)
    ensures
        entry.claimed ==> entry_after_claim(round, entry, accuracy_percentile_bps) == entry,
        entry.claimed ==> entry_after_refund(round, entry, caller) == entry,
        entry_after_claim(round, entry, accuracy_percentile_bps) == entry || entry_after_claim(
            round,
            entry,
            accuracy_percentile_bps,
        ) == (Entry { claimed: true, ..entry }),
        entry_after_refund(round, entry, caller) == entry || entry_after_refund(
            round,
            entry,
            caller,
        ) == (Entry { claimed: true, ..entry }),
{
}

/// A claim with a winning rank is paid a tenth, rounded down, of 80%,
/// rounded down, of the pot, and every later claim on that entry is refused.
/// A claim with a losing rank is paid 0 and leaves the entry as it was.
pub proof fn law_claim_pays_winner_once(
    round: Round,
    entry: Entry,
    accuracy_percentile_bps: u32,
    second_accuracy_bps: u32,
)
    requires
        claim_payout(round, entry, accuracy_percentile_bps) is Ok,
    ensures
        round.status == RoundStatus::Resolved,
        !entry.claimed,
        accuracy_percentile_bps <= 1000 ==> {
            let paid = entry_after_claim(round, entry, accuracy_percentile_bps);
            &&& claim_payout(round, entry, accuracy_percentile_bps)->Ok_0 == (round.total_pot
                * 8000 / 10_000) / 10
            &&& paid.claimed
            &&& claim_payout(round, paid, second_accuracy_bps) == Err::<u64, OracleError>(
                OracleError::RewardAlreadyClaimed,
            )
        },
        accuracy_percentile_bps > 1000 ==> {
            &&& claim_payout(round, entry, accuracy_percentile_bps)->Ok_0 == 0
            &&& entry_after_claim(round, entry, accuracy_percentile_bps) == entry
        },
{
    lemma_reward_within_pot(round.total_pot);
}

/// A refund goes through only on a canceled round, pays back exactly the
/// entry's stake, and is refused ever after, as is a claim.
pub proof fn law_refund_pays_stake_once(
    round: Round,
    entry: Entry,
    caller: AccountId,
    second_caller: AccountId,
    accuracy_percentile_bps: u32,
)
    requires
        refund_payout(round, entry, caller) is Ok,
    ensures
        round.status == RoundStatus::Canceled,
        !entry.claimed,
        caller == entry.user,
        refund_payout(round, entry, caller)->Ok_0 == entry.stake_amount,
        ({
            let refunded = entry_after_refund(round, entry, caller);
            &&& refunded.claimed
            &&& refund_payout(round, refunded, second_caller) == Err::<u64, OracleError>(
                OracleError::RewardAlreadyClaimed,
            )
            &&& claim_payout(round, refunded, accuracy_percentile_bps) is Err
        }),
{
}

} // verus!
