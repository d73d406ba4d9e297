use crowd_oracle::settlement::{claim_reward, refund_entry, reward_for};
use crowd_oracle::{AccountId, Entry, OracleError, Round, RoundStatus};

fn who(tag: u8) -> AccountId {
    AccountId::new([tag; 32])
}

fn round_with(status: RoundStatus, total_pot: u64) -> Round {
    Round {
        round_id: 4,
        target_token_mint: who(9),
        start_time: 100,
        lock_time: 3100,
        resolve_time: 3700,
        total_pot,
        player_count: 3,
        peak_roi_multiplier_bps: 15_000,
        status,
        winner_count: 0,
        announce_time: 50,
        min_players: 3,
        min_pot: 1000,
        max_lobby_duration: 300,
    }
}

fn stake(user: AccountId, amount: u64) -> Entry {
    Entry {
        user,
        round_id: 4,
        predicted_roi_bps: 14_000,
        stake_amount: amount,
        is_holder: false,
        distance_from_peak_bps: 0,
        claimed: false,
    }
}

#[test]
fn winner_of_pot_10000_gets_800() {
    let round = round_with(RoundStatus::Resolved, 10_000);
    let mut entry = stake(who(10), 400);
    assert_eq!(claim_reward(&round, &mut entry, 500), Ok(800));
    assert!(entry.claimed);
}

#[test]
fn reward_is_tenth_of_four_fifths_rounded_down() {
    assert_eq!(reward_for(0), 0);
    assert_eq!(reward_for(12), 0);
    assert_eq!(reward_for(13), 1);
    assert_eq!(reward_for(10_000), 800);
    assert_eq!(reward_for(12_345), 987);
    assert_eq!(reward_for(u64::MAX), 1_475_739_525_896_764_129);
}

#[test]
fn winner_cutoff_is_1000() {
    let round = round_with(RoundStatus::Resolved, 10_000);
    let mut best = stake(who(10), 400);
    assert_eq!(claim_reward(&round, &mut best, 0), Ok(800));
    let mut last = stake(who(11), 400);
    assert_eq!(claim_reward(&round, &mut last, 1000), Ok(800));
    assert!(last.claimed);
    let mut loser = stake(who(12), 400);
    assert_eq!(claim_reward(&round, &mut loser, 1001), Ok(0));
    assert_eq!(loser, stake(who(12), 400));
}

#[test]
fn loser_may_ask_again() {
    let round = round_with(RoundStatus::Resolved, 10_000);
    let mut entry = stake(who(10), 400);
    assert_eq!(claim_reward(&round, &mut entry, 5000), Ok(0));
    assert_eq!(claim_reward(&round, &mut entry, 5000), Ok(0));
    assert!(!entry.claimed);
}

#[test]
fn winner_is_paid_once() {
    let round = round_with(RoundStatus::Resolved, 10_000);
    let mut entry = stake(who(10), 400);
    assert_eq!(claim_reward(&round, &mut entry, 10), Ok(800));
    assert_eq!(claim_reward(&round, &mut entry, 10), Err(OracleError::RewardAlreadyClaimed));
    assert_eq!(claim_reward(&round, &mut entry, 9000), Err(OracleError::RewardAlreadyClaimed));
    assert!(entry.claimed);
}

#[test]
fn claim_needs_resolved_round() {
    for status in [RoundStatus::Announced, RoundStatus::Open, RoundStatus::Locked, RoundStatus::Canceled] {
        let round = round_with(status, 10_000);
        let mut entry = stake(who(10), 400);
        assert_eq!(claim_reward(&round, &mut entry, 10), Err(OracleError::RoundNotEnded));
        assert!(!entry.claimed);
    }
}

#[test]
fn refund_returns_stake_once() {
    let round = round_with(RoundStatus::Canceled, 1200);
    let mut entry = stake(who(10), 400);
    assert_eq!(refund_entry(&round, &mut entry, who(10)), Ok(400));
    assert!(entry.claimed);
    assert_eq!(refund_entry(&round, &mut entry, who(10)), Err(OracleError::RewardAlreadyClaimed));
    // The recorded pot is left as it was.
    assert_eq!(round.total_pot, 1200);
}

#[test]
fn refund_needs_canceled_round() {
    for status in [RoundStatus::Announced, RoundStatus::Open, RoundStatus::Locked, RoundStatus::Resolved] {
        let round = round_with(status, 1200);
        let mut entry = stake(who(10), 400);
        assert_eq!(refund_entry(&round, &mut entry, who(10)), Err(OracleError::RoundNotCanceled));
        assert!(!entry.claimed);
    }
}

#[test]
fn refund_only_to_the_participant() {
    let round = round_with(RoundStatus::Canceled, 1200);
    let mut entry = stake(who(10), 400);
    assert_eq!(refund_entry(&round, &mut entry, who(11)), Err(OracleError::Unauthorized));
    assert!(!entry.claimed);
    // A claimed entry is refused before the caller is looked at.
    entry.claimed = true;
    assert_eq!(refund_entry(&round, &mut entry, who(11)), Err(OracleError::RewardAlreadyClaimed));
}
