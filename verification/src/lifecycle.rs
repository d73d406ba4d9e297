use vstd::prelude::*;
use crate::errors::OracleError;
use crate::state::{AccountId, Entry, GlobalConfig, Round, RoundStatus};

verus! {

/// The largest predicted return that an entry may carry, in basis points.
pub const MAX_PREDICTED_ROI_BPS: u32 = 1_000_000;

/// The transition graph of a round: `Announced` leads to `Open` or
/// `Canceled`, `Open` to `Locked` or `Resolved`, `Locked` to `Resolved`.
/// `Resolved` and `Canceled` lead nowhere.
pub open spec fn allowed_transition(from: RoundStatus, to: RoundStatus) -> bool {
    match from {
        RoundStatus::Announced => to == RoundStatus::Open || to == RoundStatus::Canceled,
        RoundStatus::Open => to == RoundStatus::Locked || to == RoundStatus::Resolved,
        RoundStatus::Locked => to == RoundStatus::Resolved,
        RoundStatus::Resolved => false,
        RoundStatus::Canceled => false,
    }
}

/// How far along its lifecycle a status is. Every transition of the graph
/// raises it.
pub open spec fn stage(status: RoundStatus) -> nat {
    match status {
        RoundStatus::Announced => 0,
        RoundStatus::Open => 1,
        RoundStatus::Locked => 2,
        RoundStatus::Resolved => 3,
        RoundStatus::Canceled => 3,
    }
}

/// A status that no transition leaves.
pub open spec fn terminal(status: RoundStatus) -> bool {
    status == RoundStatus::Resolved || status == RoundStatus::Canceled
}

impl RoundStatus {
    /// Whether the transition graph has an edge from `self` to `to`.
    pub fn can_move_to(self, to: RoundStatus) -> (allowed: bool)
        ensures
            allowed == allowed_transition(self, to),
    {
        match self {
            RoundStatus::Announced => to == RoundStatus::Open || to == RoundStatus::Canceled,
            RoundStatus::Open => to == RoundStatus::Locked || to == RoundStatus::Resolved,
            RoundStatus::Locked => to == RoundStatus::Resolved,
            RoundStatus::Resolved => false,
            RoundStatus::Canceled => false,
        }
    }

    /// Whether the round has reached `Resolved` or `Canceled`.
    pub fn is_terminal(self) -> (done: bool)
        ensures
            done == terminal(self),
            done <==> forall|to: RoundStatus| !allowed_transition(self, to),
    {
        proof {
            if self == RoundStatus::Announced {
                assert(allowed_transition(self, RoundStatus::Open));
            }
            if self == RoundStatus::Open || self == RoundStatus::Locked {
                assert(allowed_transition(self, RoundStatus::Resolved));
            }
        }
        self == RoundStatus::Resolved || self == RoundStatus::Canceled
    }
}

/// The lobby deadline of `round` lies strictly before `now`.
pub open spec fn lobby_expired(round: Round, now: i64) -> bool {
    now > round.announce_time + round.max_lobby_duration
}

/// A predicted return within `1..=1_000_000` basis points.
pub open spec fn valid_prediction(predicted_roi_bps: u32) -> bool {
    1 <= predicted_roi_bps <= MAX_PREDICTED_ROI_BPS
}

/// The configuration as first set up: no round created yet.
pub open spec fn initial_config(
    authority: AccountId,
    treasury: AccountId,
    fee_stakers_bps: u16,
    fee_burn_bps: u16,
    fee_house_bps: u16,
) -> GlobalConfig {
    GlobalConfig {
        authority,
        treasury,
        fee_stakers_bps,
        fee_burn_bps,
        fee_house_bps,
        round_count: 0,
    }
}

/// A freshly announced round: empty pool, `announce_time` set to `now`, the
/// planned duration kept in `resolve_time` and the planned lock offset in
/// `lock_time` until activation.
pub open spec fn announced_round(
    round_id: u64,
    target_token_mint: AccountId,
    duration_sec: i64,
    lock_before_end_sec: i64,
    min_players: u32,
    min_pot: u64,
    max_lobby_duration: i64,
    now: i64,
) -> Round {
    Round {
        round_id,
        target_token_mint,
        start_time: 0,
        lock_time: lock_before_end_sec,
        resolve_time: duration_sec,
        total_pot: 0,
        player_count: 0,
        peak_roi_multiplier_bps: 0,
        status: RoundStatus::Announced,
        winner_count: 0,
        announce_time: now,
        min_players,
        min_pot,
        max_lobby_duration,
    }
}

/// Whether `round` takes an entry with this prediction at `now`, and the
/// error if it does not. The status is looked at first, then the time, then
/// the prediction.
pub open spec fn admission(round: Round, predicted_roi_bps: u32, now: i64) -> Result<
    (),
    OracleError,
> {
    match round.status {
        RoundStatus::Canceled => Err(OracleError::RoundCanceled),
        RoundStatus::Resolved => Err(OracleError::RoundResolved),
        RoundStatus::Locked => Err(OracleError::RoundClosed),
        RoundStatus::Announced => if lobby_expired(round, now) {
            Err(OracleError::RoundLobbyExpired)
        } else if !valid_prediction(predicted_roi_bps) {
            Err(OracleError::InvalidPredictionRange)
        } else {
            Ok(())
        },
        RoundStatus::Open => if now >= round.lock_time {
            Err(OracleError::RoundClosed)
        } else if !valid_prediction(predicted_roi_bps) {
            Err(OracleError::InvalidPredictionRange)
        } else {
            Ok(())
        },
    }
}

/// The pot and the player counter of `round` can take one more entry of
/// `stake_amount`.
pub open spec fn pool_has_room(round: Round, stake_amount: u64) -> bool {
    round.total_pot + stake_amount <= u64::MAX && round.player_count + 1 <= u32::MAX
}

/// `round` with one more entry of `stake_amount` in its pool.
pub open spec fn pooled(round: Round, stake_amount: u64) -> Round {
    Round {
        total_pot: (round.total_pot + stake_amount) as u64,
        player_count: (round.player_count + 1) as u32,
        ..round
    }
}

/// The pot has reached `min_pot` or the players have reached `min_players`.
pub open spec fn threshold_met(round: Round) -> bool {
    round.total_pot >= round.min_pot || round.player_count >= round.min_players
}

/// The planned duration of a round that is still `Announced`.
pub open spec fn planned_duration(round: Round) -> int {
    round.resolve_time as int
}

/// The planned lock offset of a round that is still `Announced`.
pub open spec fn planned_lock_offset(round: Round) -> int {
    round.lock_time as int
}

/// The resolve time that activation at `now` gives an announced round.
pub open spec fn resolve_time_at(round: Round, now: i64) -> int {
    now + planned_duration(round)
}

/// The lock time that activation at `now` gives an announced round.
pub open spec fn lock_time_at(round: Round, now: i64) -> int {
    resolve_time_at(round, now) - planned_lock_offset(round)
}

/// Both timestamps that activation at `now` would set are within `i64`.
pub open spec fn activation_fits(round: Round, now: i64) -> bool {
    &&& i64::MIN <= resolve_time_at(round, now) <= i64::MAX
    &&& i64::MIN <= lock_time_at(round, now) <= i64::MAX
}

/// An announced round after activation at `now`.
pub open spec fn activated(round: Round, now: i64) -> Round {
    Round {
        status: RoundStatus::Open,
        start_time: now,
        resolve_time: resolve_time_at(round, now) as i64,
        lock_time: lock_time_at(round, now) as i64,
        ..round
    }
}

/// The round that an entry leaves behind, or the error that refuses it.
///
/// An admitted entry is added to the pool. If the round is `Announced` and the
/// pool then meets a threshold, the round is activated. `Overflow` refuses an
/// entry whose stake the pool cannot hold, or whose activation would set a
/// timestamp outside `i64`.
pub open spec fn round_after_entry(
    round: Round,
    predicted_roi_bps: u32,
    stake_amount: u64,
    now: i64,
) -> Result<Round, OracleError> {
    let with_stake = pooled(round, stake_amount);
    if let Err(e) = admission(round, predicted_roi_bps, now) {
        Err(e)
    } else if !pool_has_room(round, stake_amount) {
        Err(OracleError::Overflow)
    } else if round.status == RoundStatus::Announced && threshold_met(with_stake) {
        if activation_fits(round, now) {
            Ok(activated(with_stake, now))
        } else {
            Err(OracleError::Overflow)
        }
    } else {
        Ok(with_stake)
    }
}

/// The record of a stake just placed: not yet ranked, not yet claimed.
pub open spec fn new_entry(
    user: AccountId,
    round_id: u64,
    predicted_roi_bps: u32,
    stake_amount: u64,
    is_holder: bool,
) -> Entry {
    Entry {
        user,
        round_id,
        predicted_roi_bps,
        stake_amount,
        is_holder,
        distance_from_peak_bps: 0,
        claimed: false,
    }
}

/// The round after cancellation at `now`, or the error that refuses it.
pub open spec fn round_after_cancel(round: Round, now: i64) -> Result<Round, OracleError> {
    if round.status != RoundStatus::Announced {
        Err(OracleError::RoundNotAnnounced)
    } else if !lobby_expired(round, now) {
        Err(OracleError::RoundNotExpired)
    } else {
        Ok(Round { status: RoundStatus::Canceled, ..round })
    }
}

/// The round after `caller` resolves it at `now` with the given peak, or the
/// error that refuses it. The caller is looked at first, then the status,
/// then the time.
pub open spec fn round_after_resolve(
    round: Round,
    config: GlobalConfig,
    caller: AccountId,
    peak_roi_multiplier_bps: u32,
    now: i64,
) -> Result<Round, OracleError> {
    if caller != config.authority {
        Err(OracleError::Unauthorized)
    } else if round.status != RoundStatus::Open && round.status != RoundStatus::Locked {
        Err(OracleError::RoundNotOpen)
    } else if now < round.resolve_time {
        Err(OracleError::RoundNotEnded)
    } else {
        Ok(Round { peak_roi_multiplier_bps, status: RoundStatus::Resolved, ..round })
    }
}

/// Sets up the configuration with `authority` as the privileged identity.
pub fn initialize(
    authority: AccountId,
    treasury: AccountId,
    fee_stakers_bps: u16,
    fee_burn_bps: u16,
    fee_house_bps: u16,
) -> (config: GlobalConfig)
    ensures
        config == initial_config(authority, treasury, fee_stakers_bps, fee_burn_bps, fee_house_bps),
{
    GlobalConfig {
        authority,
        treasury,
        fee_stakers_bps,
        fee_burn_bps,
        fee_house_bps,
        round_count: 0,
    }
}

/// Whether `lobby_expired` holds, computed without overflow.
fn lobby_has_expired(round: &Round, now: i64) -> (expired: bool)
    ensures
        expired == lobby_expired(*round, now),
{
    let deadline: i128 = round.announce_time as i128 + round.max_lobby_duration as i128;
    now as i128 > deadline
}

/// Announces a new round on behalf of `caller` and counts it in `config`.
///
/// Only the authority may do so. The counter is raised by one; a counter
/// that is already at its maximum refuses the round with `Overflow`.
pub fn create_round(
    config: &mut GlobalConfig,
    caller: AccountId,
    round_id: u64,
    target_token_mint: AccountId,
    duration_sec: i64,
    lock_before_end_sec: i64,
    min_players: u32,
    min_pot: u64,
    max_lobby_duration: i64,
    now: i64,
) -> (res: Result<Round, OracleError>)
    ensures
        caller != old(config).authority ==> res == Err::<Round, OracleError>(
            OracleError::Unauthorized,
        ),
        caller == old(config).authority && old(config).round_count == u64::MAX ==> res == Err::<
            Round,
            OracleError,
        >(OracleError::Overflow),
        caller == old(config).authority && old(config).round_count < u64::MAX ==> res == Ok::<
            Round,
            OracleError,
        >(
            announced_round(
                round_id,
                target_token_mint,
                duration_sec,
                lock_before_end_sec,
                min_players,
                min_pot,
                max_lobby_duration,
                now,
            ),
        ),
        res is Err ==> *final(config) == *old(config),
        res is Ok ==> *final(config) == (GlobalConfig {
            round_count: (old(config).round_count + 1) as u64,
            ..*old(config)
        }),
{
    if !caller.same_as(&config.authority) {
        return Err(OracleError::Unauthorized);
    }
    let count: u64 = match config.round_count.checked_add(1) {
        Some(n) => n,
        None => {
            return Err(OracleError::Overflow);
        },
    };
    config.round_count = count;
    Ok(
        Round {
            round_id,
            target_token_mint,
            start_time: 0,
            lock_time: lock_before_end_sec,
            resolve_time: duration_sec,
            total_pot: 0,
            player_count: 0,
            peak_roi_multiplier_bps: 0,
            status: RoundStatus::Announced,
            winner_count: 0,
            announce_time: now,
            min_players,
            min_pot,
            max_lobby_duration,
        },
    )
}

/// Tells whether `round` would take an entry with this prediction at `now`,
/// before any stake is moved.
pub fn check_admission(round: &Round, predicted_roi_bps: u32, now: i64) -> (res: Result<
    (),
    OracleError,
>)
    ensures
        res == admission(*round, predicted_roi_bps, now),
{
    match round.status {
        RoundStatus::Canceled => {
            return Err(OracleError::RoundCanceled);
        },
        RoundStatus::Resolved => {
            return Err(OracleError::RoundResolved);
        },
        RoundStatus::Locked => {
            return Err(OracleError::RoundClosed);
        },
        RoundStatus::Announced => {
            if lobby_has_expired(round, now) {
                return Err(OracleError::RoundLobbyExpired);
            }
        },
        RoundStatus::Open => {
            if now >= round.lock_time {
                return Err(OracleError::RoundClosed);
            }
        },
    }
    if predicted_roi_bps == 0 || predicted_roi_bps > MAX_PREDICTED_ROI_BPS {
        return Err(OracleError::InvalidPredictionRange);
    }
    Ok(())
}

/// Records the stake of `user` in `round` at `now` and returns the entry to
/// store.
///
/// The round must admit the entry (see `admission`). The stake joins the pot
/// and the player counter rises by one, both checked. A round that is still
/// `Announced` becomes `Open` exactly when the pool then meets a threshold:
/// `start_time` becomes `now`, `resolve_time` becomes `now` plus the planned
/// duration, `lock_time` becomes that minus the planned lock offset. A
/// refused entry leaves the round as it was.
pub fn submit_entry(
    round: &mut Round,
    user: AccountId,
    predicted_roi_bps: u32,
    stake_amount: u64,
    is_holder: bool,
    now: i64,
) -> (res: Result<Entry, OracleError>)
    ensures
        match round_after_entry(*old(round), predicted_roi_bps, stake_amount, now) {
            Ok(next) => *final(round) == next && res == Ok::<Entry, OracleError>(
                new_entry(user, old(round).round_id, predicted_roi_bps, stake_amount, is_holder),
            ),
            Err(e) => *final(round) == *old(round) && res == Err::<Entry, OracleError>(e),
        },
        res is Ok ==> valid_prediction(predicted_roi_bps),
        res is Ok && old(round).status == RoundStatus::Announced ==> (final(round).status
            == RoundStatus::Open <==> threshold_met(pooled(*old(round), stake_amount))),
        final(round).status == old(round).status || allowed_transition(
            old(round).status,
            final(round).status,
        ),
{
    if let Err(e) = check_admission(round, predicted_roi_bps, now) {
        return Err(e);
    }
    let total_pot: u64 = match round.total_pot.checked_add(stake_amount) {
        Some(t) => t,
        None => {
            return Err(OracleError::Overflow);
        },
    };
    let player_count: u32 = match round.player_count.checked_add(1) {
        Some(c) => c,
        None => {
            return Err(OracleError::Overflow);
        },
    };
    let activates = round.status == RoundStatus::Announced && (total_pot >= round.min_pot
        || player_count >= round.min_players);
    if activates {
        let resolve_time: i64 = match now.checked_add(round.resolve_time) {
            Some(t) => t,
            None => {
                return Err(OracleError::Overflow);
            },
        };
        let lock_time: i64 = match resolve_time.checked_sub(round.lock_time) {
            Some(t) => t,
            None => {
                return Err(OracleError::Overflow);
            },
        };
        round.status = RoundStatus::Open;
        round.start_time = now;
        round.resolve_time = resolve_time;
        round.lock_time = lock_time;
    }
    round.total_pot = total_pot;
    round.player_count = player_count;
    Ok(
        Entry {
            user,
            round_id: round.round_id,
            predicted_roi_bps,
            stake_amount,
            is_holder,
            distance_from_peak_bps: 0,
            claimed: false,
        },
    )
}

/// Cancels a round whose lobby deadline has passed without activation.
pub fn cancel_round(round: &mut Round, now: i64) -> (res: Result<(), OracleError>)
    ensures
        match round_after_cancel(*old(round), now) {
            Ok(next) => *final(round) == next && res == Ok::<(), OracleError>(()),
            Err(e) => *final(round) == *old(round) && res == Err::<(), OracleError>(e),
        },
        res is Ok <==> old(round).status == RoundStatus::Announced && lobby_expired(
            *old(round),
            now,
        ),
        final(round).status == old(round).status || allowed_transition(
            old(round).status,
            final(round).status,
        ),
{
    if round.status != RoundStatus::Announced {
        return Err(OracleError::RoundNotAnnounced);
    }
    if !lobby_has_expired(round, now) {
        return Err(OracleError::RoundNotExpired);
    }
    round.status = RoundStatus::Canceled;
    Ok(())
}

/// Resolves a round that has run its time, recording the peak return.
///
/// Only the authority may do so, only from `Open` or `Locked`, and only from
/// `resolve_time` on.
pub fn resolve_round(
    round: &mut Round,
    config: &GlobalConfig,
    caller: AccountId,
    peak_roi_multiplier_bps: u32,
    now: i64,
) -> (res: Result<(), OracleError>)
    ensures
        match round_after_resolve(*old(round), *config, caller, peak_roi_multiplier_bps, now) {
            Ok(next) => *final(round) == next && res == Ok::<(), OracleError>(()),
            Err(e) => *final(round) == *old(round) && res == Err::<(), OracleError>(e),
        },
        res is Ok <==> caller == config.authority && (old(round).status == RoundStatus::Open
            || old(round).status == RoundStatus::Locked) && now >= old(round).resolve_time,
        final(round).status == old(round).status || allowed_transition(
            old(round).status,
            final(round).status,
        ),
{
    if !caller.same_as(&config.authority) {
        return Err(OracleError::Unauthorized);
    }
    if round.status != RoundStatus::Open && round.status != RoundStatus::Locked {
        return Err(OracleError::RoundNotOpen);
    }
    if now < round.resolve_time {
        return Err(OracleError::RoundNotEnded);
    }
    round.peak_roi_multiplier_bps = peak_roi_multiplier_bps;
    round.status = RoundStatus::Resolved;
    Ok(())
}

/// Every edge of the transition graph leads strictly forward, so no sequence
/// of transitions ever returns to a status it has left.
pub proof fn law_transitions_never_go_back(from: RoundStatus, to: RoundStatus)
    requires
        allowed_transition(from, to),
    ensures
        stage(from) < stage(to),
        !allowed_transition(to, from),
        !terminal(from),
{
}

/// Whatever an entry, a cancellation or a resolution does to a round, its
/// status stays or moves along one edge of the transition graph: an entry
/// can only open an announced round, a cancellation only cancels an announced
/// round, a resolution only resolves an open or locked one.
pub proof fn law_status_follows_graph(
    round: Round,
    config: GlobalConfig,
    caller: AccountId,
    predicted_roi_bps: u32,
    stake_amount: u64,
    peak_roi_multiplier_bps: u32,
    now: i64,
)
    ensures
        round_after_entry(round, predicted_roi_bps, stake_amount, now) matches Ok(next) ==> {
            &&& next.status == round.status || allowed_transition(round.status, next.status)
            &&& next.status == round.status || (round.status == RoundStatus::Announced
                && next.status == RoundStatus::Open)
        },
        round_after_cancel(round, now) matches Ok(next) ==> {
            &&& allowed_transition(round.status, next.status)
            &&& round.status == RoundStatus::Announced
            &&& next.status == RoundStatus::Canceled
        },
        round_after_resolve(round, config, caller, peak_roi_multiplier_bps, now) matches Ok(next)
            ==> {
            &&& allowed_transition(round.status, next.status)
            &&& round.status == RoundStatus::Open || round.status == RoundStatus::Locked
            &&& next.status == RoundStatus::Resolved
        },
{
}

/// One thing that is asked of a round: to take an entry, to be canceled, or
/// to be resolved.
pub enum RoundEvent {
    Entry { predicted_roi_bps: u32, stake_amount: u64 },
    Cancel,
    Resolve { caller: AccountId, peak_roi_multiplier_bps: u32 },
}

/// The round after `event` at `now`: changed as the event asks where it is
/// accepted, untouched where it is refused.
pub open spec fn round_after_event(
    round: Round,
    config: GlobalConfig,
    event: RoundEvent,
    now: i64,
) -> Round {
    let outcome = match event {
        RoundEvent::Entry { predicted_roi_bps, stake_amount } => round_after_entry(
            round,
            predicted_roi_bps,
            stake_amount,
            now,
        ),
        RoundEvent::Cancel => round_after_cancel(round, now),
        RoundEvent::Resolve { caller, peak_roi_multiplier_bps } => round_after_resolve(
            round,
            config,
            caller,
            peak_roi_multiplier_bps,
            now,
        ),
    };
    match outcome {
        Ok(next) => next,
        Err(_) => round,
    }
}

/// The round after a history of events, each with the time at which it came.
pub open spec fn round_after_events(
    round: Round,
    config: GlobalConfig,
    events: Seq<(RoundEvent, i64)>,
) -> Round
    decreases events.len(),
{
    if events.len() == 0 {
        round
    } else {
        round_after_event(
            round_after_events(round, config, events.drop_last()),
            config,
            events.last().0,
            events.last().1,
        )
    }
}

/// Over any history of events, at any times, a round's status never moves
/// backward, a round that has ended stays as it ended, and the identity and
/// thresholds of the round stay what they were.
pub proof fn law_status_never_returns(
    round: Round,
    config: GlobalConfig,
    events: Seq<(RoundEvent, i64)>,
)
    ensures
        stage(round.status) <= stage(round_after_events(round, config, events).status),
        terminal(round.status) ==> round_after_events(round, config, events).status
            == round.status,
        round_after_events(round, config, events).round_id == round.round_id,
        round_after_events(round, config, events).announce_time == round.announce_time,
        round_after_events(round, config, events).min_pot == round.min_pot,
        round_after_events(round, config, events).min_players == round.min_players,
        round_after_events(round, config, events).max_lobby_duration == round.max_lobby_duration,
    decreases events.len(),
{
    if events.len() > 0 {
        law_status_never_returns(round, config, events.drop_last());
    }
}

/// An entry that an announced round takes before its lobby deadline
/// activates the round exactly when the pool, with that entry in it, has
/// reached the minimum pot or the minimum number of players. Activation sets
/// `start_time` to `now`, `resolve_time` to `start_time` plus the planned
/// duration and `lock_time` to `resolve_time` minus the planned lock offset,
/// which lies before `resolve_time` exactly when that offset is positive.
/// Without activation the round stays announced and keeps its plan.
pub proof fn law_activation(round: Round, predicted_roi_bps: u32, stake_amount: u64, now: i64)
    requires
        round.status == RoundStatus::Announced,
        round_after_entry(round, predicted_roi_bps, stake_amount, now) is Ok,
    ensures
        !lobby_expired(round, now),
        ({
            let next = round_after_entry(round, predicted_roi_bps, stake_amount, now)->Ok_0;
            let met = next.total_pot >= round.min_pot || next.player_count >= round.min_players;
            &&& next.total_pot == round.total_pot + stake_amount
            &&& next.player_count == round.player_count + 1
            &&& next.status == RoundStatus::Open <==> met
            &&& met ==> next.start_time == now && next.resolve_time == next.start_time
                + planned_duration(round) && next.lock_time == next.resolve_time
                - planned_lock_offset(round)
            &&& met ==> (next.lock_time < next.resolve_time <==> planned_lock_offset(round) > 0)
            &&& !met ==> next.status == RoundStatus::Announced && next.start_time
                == round.start_time && planned_duration(next) == planned_duration(round)
                && planned_lock_offset(next) == planned_lock_offset(round)
        }),
{
}

/// An open round never activates again: an entry leaves its status and its
/// timestamps alone.
pub proof fn law_open_round_keeps_times(
    round: Round,
    predicted_roi_bps: u32,
    stake_amount: u64,
    now: i64,
)
    requires
        round.status == RoundStatus::Open,
        round_after_entry(round, predicted_roi_bps, stake_amount, now) is Ok,
    ensures
        now < round.lock_time,
        round_after_entry(round, predicted_roi_bps, stake_amount, now)->Ok_0 == pooled(
            round,
            stake_amount,
        ),
{
}

/// A prediction of 0 or of more than 1,000,000 basis points is never
/// admitted. The bounds 1 and 1,000,000 are admitted by an announced round
/// within its lobby time and by an open round before its lock time.
pub proof fn law_prediction_bounds(round: Round, predicted_roi_bps: u32, now: i64)
    ensures
        predicted_roi_bps == 0 || predicted_roi_bps > 1_000_000 ==> admission(
            round,
            predicted_roi_bps,
            now,
        ) is Err,
        (round.status == RoundStatus::Announced && !lobby_expired(round, now)) || (round.status
            == RoundStatus::Open && now < round.lock_time) ==> {
            &&& admission(round, 1, now) is Ok
            &&& admission(round, 1_000_000, now) is Ok
            &&& admission(round, 0, now) == Err::<(), OracleError>(
                OracleError::InvalidPredictionRange,
            )
            &&& admission(round, 1_000_001, now) == Err::<(), OracleError>(
                OracleError::InvalidPredictionRange,
            )
        },
{
}

/// A resolution goes through only for the authority, on an open or locked
/// round, from `resolve_time` on; and once it has, every further one is
/// refused, whoever asks and whenever.
pub proof fn law_resolve_only_once(
    round: Round,
    config: GlobalConfig,
    caller: AccountId,
    peak_roi_multiplier_bps: u32,
    now: i64,
    second_caller: AccountId,
    second_peak: u32,
    later: i64,
)
    requires
        round_after_resolve(round, config, caller, peak_roi_multiplier_bps, now) is Ok,
    ensures
        caller == config.authority,
        round.status == RoundStatus::Open || round.status == RoundStatus::Locked,
        now >= round.resolve_time,
        ({
            let resolved = round_after_resolve(
                round,
                config,
                caller,
                peak_roi_multiplier_bps,
                now,
            )->Ok_0;
            &&& resolved.status == RoundStatus::Resolved
            &&& resolved.peak_roi_multiplier_bps == peak_roi_multiplier_bps
            &&& round_after_resolve(resolved, config, second_caller, second_peak, later) is Err
            &&& second_caller == config.authority ==> round_after_resolve(
                resolved,
                config,
                second_caller,
                second_peak,
                later,
            ) == Err::<Round, OracleError>(OracleError::RoundNotOpen)
        }),
{
}

/// A cancellation goes through exactly for an announced round whose lobby
/// deadline has passed, and a canceled round takes no further entry,
/// cancellation or resolution.
pub proof fn law_cancel_only_expired_lobby(
    round: Round,
    config: GlobalConfig,
    caller: AccountId,
    predicted_roi_bps: u32,
    stake_amount: u64,
    peak_roi_multiplier_bps: u32,
    now: i64,
    later: i64,
)
    ensures
        round_after_cancel(round, now) is Ok <==> round.status == RoundStatus::Announced && now
            > round.announce_time + round.max_lobby_duration,
        round_after_cancel(round, now) matches Ok(canceled) ==> {
            &&& canceled.status == RoundStatus::Canceled
            &&& round_after_cancel(canceled, later) is Err
            &&& round_after_entry(canceled, predicted_roi_bps, stake_amount, later) is Err
            &&& round_after_resolve(canceled, config, caller, peak_roi_multiplier_bps, later) is Err
        },
{
}

} // verus!
