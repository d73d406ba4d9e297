use crowd_oracle::lifecycle::{
    cancel_round, check_admission, create_round, initialize, resolve_round, submit_entry,
};
use crowd_oracle::RoundStatus::{Announced, Canceled, Locked, Open, Resolved};
use crowd_oracle::{AccountId, GlobalConfig, OracleError, Round, RoundStatus};

fn id(tag: u8) -> AccountId {
    AccountId::new([tag; 32])
}

fn config() -> GlobalConfig {
    initialize(id(1), id(2), 500, 500, 1000)
}

fn lobby(now: i64) -> Round {
    let mut cfg = config();
    create_round(&mut cfg, id(1), 1, id(9), 3600, 600, 3, 1000, 300, now).unwrap()
}

fn open_round() -> Round {
    let mut round = lobby(1_000);
    submit_entry(&mut round, id(10), 20_000, 1000, false, 1_100).unwrap();
    assert_eq!(round.status, RoundStatus::Open);
    round
}

#[test]
fn account_ids_compare_by_bytes() {
    let mut bytes = [7u8; 32];
    let a = AccountId::new(bytes);
    assert!(a.same_as(&AccountId::new([7u8; 32])));
    assert_eq!(a.to_bytes(), bytes);
    bytes[31] = 8;
    assert!(!a.same_as(&AccountId::new(bytes)));
    bytes[31] = 7;
    bytes[0] = 0;
    assert!(!a.same_as(&AccountId::new(bytes)));
}

#[test]
fn initialize_sets_fees_and_zero_counter() {
    let cfg = config();
    assert_eq!(cfg.authority, id(1));
    assert_eq!(cfg.treasury, id(2));
    assert_eq!(cfg.fee_stakers_bps, 500);
    assert_eq!(cfg.fee_burn_bps, 500);
    assert_eq!(cfg.fee_house_bps, 1000);
    assert_eq!(cfg.round_count, 0);
}

#[test]
fn create_round_announces_and_counts() {
    let mut cfg = config();
    let round = create_round(&mut cfg, id(1), 7, id(9), 3600, 600, 3, 1000, 300, 5_000).unwrap();
    assert_eq!(cfg.round_count, 1);
    assert_eq!(round.round_id, 7);
    assert_eq!(round.target_token_mint, id(9));
    assert_eq!(round.status, RoundStatus::Announced);
    assert_eq!(round.announce_time, 5_000);
    assert_eq!(round.start_time, 0);
    assert_eq!(round.resolve_time, 3600);
    assert_eq!(round.lock_time, 600);
    assert_eq!(round.min_players, 3);
    assert_eq!(round.min_pot, 1000);
    assert_eq!(round.max_lobby_duration, 300);
    assert_eq!(round.total_pot, 0);
    assert_eq!(round.player_count, 0);
    assert_eq!(round.peak_roi_multiplier_bps, 0);
    assert_eq!(round.winner_count, 0);
    create_round(&mut cfg, id(1), 8, id(9), 60, 10, 1, 1, 30, 5_001).unwrap();
    assert_eq!(cfg.round_count, 2);
}

#[test]
fn create_round_refuses_other_callers() {
    let mut cfg = config();
    let res = create_round(&mut cfg, id(3), 1, id(9), 3600, 600, 3, 1000, 300, 0);
    assert_eq!(res, Err(OracleError::Unauthorized));
    assert_eq!(cfg, config());
}

#[test]
fn create_round_refuses_full_counter() {
    let mut cfg = config();
    cfg.round_count = u64::MAX;
    let res = create_round(&mut cfg, id(1), 1, id(9), 3600, 600, 3, 1000, 300, 0);
    assert_eq!(res, Err(OracleError::Overflow));
    assert_eq!(cfg.round_count, u64::MAX);
}

#[test]
fn third_player_activates_round() {
    let mut cfg = config();
    let mut round = create_round(&mut cfg, id(1), 1, id(9), 3600, 600, 3, 1000, 300, 10_000).unwrap();
    let first = submit_entry(&mut round, id(10), 15_000, 400, false, 10_010).unwrap();
    assert_eq!(round.status, RoundStatus::Announced);
    assert_eq!((round.total_pot, round.player_count), (400, 1));
    assert_eq!(first.user, id(10));
    assert_eq!(first.round_id, 1);
    assert_eq!(first.predicted_roi_bps, 15_000);
    assert_eq!(first.stake_amount, 400);
    assert!(!first.is_holder);
    assert!(!first.claimed);
    assert_eq!(first.distance_from_peak_bps, 0);
    submit_entry(&mut round, id(11), 12_000, 400, true, 10_020).unwrap();
    assert_eq!(round.status, RoundStatus::Announced);
    assert_eq!((round.total_pot, round.player_count), (800, 2));
    assert_eq!((round.resolve_time, round.lock_time), (3600, 600));
    let now = 10_030;
    submit_entry(&mut round, id(12), 11_000, 400, false, now).unwrap();
    assert_eq!(round.status, RoundStatus::Open);
    assert_eq!((round.total_pot, round.player_count), (1200, 3));
    assert_eq!(round.start_time, now);
    assert_eq!(round.resolve_time, now + 3600);
    assert_eq!(round.lock_time, now + 3000);
}

#[test]
fn pot_threshold_alone_activates_round() {
    let mut round = lobby(0);
    submit_entry(&mut round, id(10), 1, 999, false, 5).unwrap();
    assert_eq!(round.status, RoundStatus::Announced);
    let mut other = lobby(0);
    submit_entry(&mut other, id(10), 1, 1000, false, 5).unwrap();
    assert_eq!(other.status, RoundStatus::Open);
    assert_eq!((other.start_time, other.resolve_time, other.lock_time), (5, 3605, 3005));
}

#[test]
fn open_round_does_not_activate_again() {
    let mut round = open_round();
    let before = round;
    submit_entry(&mut round, id(11), 500, 50, false, 1_200).unwrap();
    assert_eq!(round.status, RoundStatus::Open);
    assert_eq!(round.start_time, before.start_time);
    assert_eq!(round.resolve_time, before.resolve_time);
    assert_eq!(round.lock_time, before.lock_time);
    assert_eq!(round.total_pot, before.total_pot + 50);
    assert_eq!(round.player_count, before.player_count + 1);
}

#[test]
fn prediction_bounds() {
    let round = lobby(0);
    assert_eq!(check_admission(&round, 0, 1), Err(OracleError::InvalidPredictionRange));
    assert_eq!(check_admission(&round, 1_000_001, 1), Err(OracleError::InvalidPredictionRange));
    assert_eq!(check_admission(&round, u32::MAX, 1), Err(OracleError::InvalidPredictionRange));
    assert_eq!(check_admission(&round, 1, 1), Ok(()));
    assert_eq!(check_admission(&round, 1_000_000, 1), Ok(()));
    let mut taking = lobby(0);
    assert!(submit_entry(&mut taking, id(10), 1_000_000, 10, false, 1).is_ok());
    let mut refusing = lobby(0);
    let res = submit_entry(&mut refusing, id(10), 0, 10, false, 1);
    assert_eq!(res, Err(OracleError::InvalidPredictionRange));
    assert_eq!(refusing, lobby(0));
}

#[test]
fn entry_refused_by_status() {
    let mut canceled = lobby(0);
    canceled.status = RoundStatus::Canceled;
    assert_eq!(submit_entry(&mut canceled, id(10), 5, 10, false, 1), Err(OracleError::RoundCanceled));
    let mut resolved = lobby(0);
    resolved.status = RoundStatus::Resolved;
    assert_eq!(submit_entry(&mut resolved, id(10), 5, 10, false, 1), Err(OracleError::RoundResolved));
    let mut locked = lobby(0);
    locked.status = RoundStatus::Locked;
    assert_eq!(submit_entry(&mut locked, id(10), 5, 10, false, 1), Err(OracleError::RoundClosed));
    // The status is looked at before the prediction.
    assert_eq!(submit_entry(&mut locked, id(10), 0, 10, false, 1), Err(OracleError::RoundClosed));
}

#[test]
fn entry_refused_after_lobby_deadline() {
    let mut round = lobby(1_000);
    assert!(submit_entry(&mut round, id(10), 5, 10, false, 1_300).is_ok());
    let before = round;
    let res = submit_entry(&mut round, id(11), 5, 10, false, 1_301);
    assert_eq!(res, Err(OracleError::RoundLobbyExpired));
    assert_eq!(round, before);
}

#[test]
fn entry_refused_from_lock_time() {
    let mut round = open_round();
    let lock = round.lock_time;
    assert!(submit_entry(&mut round, id(11), 5, 10, false, lock - 1).is_ok());
    assert_eq!(submit_entry(&mut round, id(12), 5, 10, false, lock), Err(OracleError::RoundClosed));
    assert_eq!(submit_entry(&mut round, id(12), 5, 10, false, lock + 1), Err(OracleError::RoundClosed));
}

#[test]
fn entry_refused_when_pot_overflows() {
    let mut round = open_round();
    round.total_pot = u64::MAX - 5;
    let before = round;
    assert_eq!(submit_entry(&mut round, id(11), 5, 6, false, 1_200), Err(OracleError::Overflow));
    assert_eq!(round, before);
    assert!(submit_entry(&mut round, id(11), 5, 5, false, 1_200).is_ok());
    assert_eq!(round.total_pot, u64::MAX);
}

#[test]
fn entry_refused_when_player_count_overflows() {
    let mut round = open_round();
    round.player_count = u32::MAX;
    let before = round;
    assert_eq!(submit_entry(&mut round, id(11), 5, 6, false, 1_200), Err(OracleError::Overflow));
    assert_eq!(round, before);
}

#[test]
fn activation_refused_when_timestamps_overflow() {
    let mut cfg = config();
    let mut round = create_round(&mut cfg, id(1), 1, id(9), i64::MAX, 0, 1, 0, 300, 10).unwrap();
    let before = round;
    assert_eq!(submit_entry(&mut round, id(10), 5, 6, false, 11), Err(OracleError::Overflow));
    assert_eq!(round, before);
    let mut wide = create_round(&mut cfg, id(1), 2, id(9), 100, i64::MIN, 1, 0, 300, 10).unwrap();
    assert_eq!(submit_entry(&mut wide, id(10), 5, 6, false, 11), Err(OracleError::Overflow));
}

#[test]
fn lobby_deadline_near_integer_limits() {
    let mut cfg = config();
    let mut round = create_round(&mut cfg, id(1), 1, id(9), 10, 5, 9, 1_000, i64::MAX, i64::MAX).unwrap();
    // The deadline lies beyond every timestamp: the lobby never expires.
    assert_eq!(cancel_round(&mut round, i64::MAX), Err(OracleError::RoundNotExpired));
    assert_eq!(check_admission(&round, 5, i64::MAX), Ok(()));
}

#[test]
fn cancel_only_after_deadline() {
    let mut round = lobby(1_000);
    assert_eq!(cancel_round(&mut round, 1_299), Err(OracleError::RoundNotExpired));
    assert_eq!(cancel_round(&mut round, 1_300), Err(OracleError::RoundNotExpired));
    assert_eq!(round.status, RoundStatus::Announced);
    assert_eq!(cancel_round(&mut round, 1_301), Ok(()));
    assert_eq!(round.status, RoundStatus::Canceled);
    assert_eq!(cancel_round(&mut round, 1_302), Err(OracleError::RoundNotAnnounced));
}

#[test]
fn cancel_only_from_announced() {
    let mut round = open_round();
    assert_eq!(cancel_round(&mut round, i64::MAX), Err(OracleError::RoundNotAnnounced));
    assert_eq!(round.status, RoundStatus::Open);
}

#[test]
fn resolve_checks_caller_status_and_time() {
    let cfg = config();
    let mut round = open_round();
    let end = round.resolve_time;
    assert_eq!(resolve_round(&mut round, &cfg, id(3), 15_000, end), Err(OracleError::Unauthorized));
    assert_eq!(resolve_round(&mut round, &cfg, id(1), 15_000, end - 1), Err(OracleError::RoundNotEnded));
    assert_eq!(round.status, RoundStatus::Open);
    assert_eq!(round.peak_roi_multiplier_bps, 0);
    assert_eq!(resolve_round(&mut round, &cfg, id(1), 15_000, end), Ok(()));
    assert_eq!(round.status, RoundStatus::Resolved);
    assert_eq!(round.peak_roi_multiplier_bps, 15_000);
    // A second resolution is refused and changes nothing.
    assert_eq!(resolve_round(&mut round, &cfg, id(1), 99, end + 1), Err(OracleError::RoundNotOpen));
    assert_eq!(round.peak_roi_multiplier_bps, 15_000);
    let mut waiting = lobby(0);
    assert_eq!(resolve_round(&mut waiting, &cfg, id(1), 1, i64::MAX), Err(OracleError::RoundNotOpen));
}

#[test]
fn resolve_from_locked() {
    let cfg = config();
    let mut round = open_round();
    round.status = RoundStatus::Locked;
    let end = round.resolve_time;
    assert_eq!(resolve_round(&mut round, &cfg, id(1), 20_000, end + 5), Ok(()));
    assert_eq!(round.status, RoundStatus::Resolved);
}

#[test]
fn transition_table() {
    let all = [Announced, Open, Locked, Resolved, Canceled];
    let edges = [(Announced, Open), (Announced, Canceled), (Open, Locked), (Open, Resolved), (Locked, Resolved)];
    for from in all {
        for to in all {
            assert_eq!(from.can_move_to(to), edges.contains(&(from, to)));
        }
    }
    assert!(Resolved.is_terminal());
    assert!(Canceled.is_terminal());
    assert!(!Announced.is_terminal());
    assert!(!Open.is_terminal());
    assert!(!Locked.is_terminal());
}
