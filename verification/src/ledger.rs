use vstd::prelude::*;
use crate::errors::OracleError;
use crate::lifecycle::{new_entry, round_after_entry, submit_entry};
use crate::settlement::{
    claim_payout,
    claim_reward,
    entry_after_claim,
    entry_after_refund,
    refund_entry,
    refund_payout,
};
use crate::state::{AccountId, Entry, Round};

verus! {

/// Why the ledger did not carry out an operation.
#[derive(Clone, Copy, Debug, PartialEq, Eq)]
pub enum LedgerError {
    /// The participant already has an entry in the round.
    EntryExists,
    /// The participant has no entry in the round.
    EntryMissing,
    /// The round or the entry refused the operation.
    Refused(OracleError),
}

/// `entry` is the one kept for `user` in round `round_id`.
pub open spec fn has_key(entry: Entry, round_id: u64, user: AccountId) -> bool {
    entry.round_id == round_id && entry.user == user
}

/// Some entry of `entries` is kept for `user` in round `round_id`.
pub open spec fn holds_key(entries: Seq<Entry>, round_id: u64, user: AccountId) -> bool {
    exists|i: int| 0 <= i < entries.len() && has_key(#[trigger] entries[i], round_id, user)
}

/// No two entries of `entries` belong to the same participant in the same
/// round.
pub open spec fn distinct_keys(entries: Seq<Entry>) -> bool {
    forall|i: int, j: int|
        #![trigger entries[i], entries[j]]
        0 <= i < j < entries.len() ==> !has_key(entries[i], entries[j].round_id, entries[j].user)
}

/// Where the entry of `user` in round `round_id` stands in `entries`, if
/// `holds_key` says there is one.
pub open spec fn key_index(entries: Seq<Entry>, round_id: u64, user: AccountId) -> int {
    choose|i: int| 0 <= i < entries.len() && has_key(#[trigger] entries[i], round_id, user)
}

/// `entries` after an attempt to record `entry`: appended if its key is
/// free, dropped if it is taken.
pub open spec fn recorded(entries: Seq<Entry>, entry: Entry) -> Seq<Entry> {
    if holds_key(entries, entry.round_id, entry.user) {
        entries
    } else {
        entries.push(entry)
    }
}

/// `entries` after attempts to record each of `submissions` in turn.
pub open spec fn recorded_all(entries: Seq<Entry>, submissions: Seq<Entry>) -> Seq<Entry>
    decreases submissions.len(),
{
    if submissions.len() == 0 {
        entries
    } else {
        recorded(recorded_all(entries, submissions.drop_last()), submissions.last())
    }
}

/// Recording keeps keys distinct.
pub proof fn lemma_recorded_keeps_keys_distinct(entries: Seq<Entry>, entry: Entry)
    requires
        distinct_keys(entries),
    ensures
        distinct_keys(recorded(entries, entry)),
        holds_key(recorded(entries, entry), entry.round_id, entry.user),
{
    let after = recorded(entries, entry);
    if holds_key(entries, entry.round_id, entry.user) {
    } else {
        assert forall|i: int, j: int| 0 <= i < j < after.len() implies !has_key(
            after[i],
            after[j].round_id,
            after[j].user,
        ) by {
            if j == entries.len() {
                assert(after[i] == entries[i]);
                assert(after[j] == entry);
            } else {
                assert(after[i] == entries[i]);
                assert(after[j] == entries[j]);
            }
        }
        assert(has_key(after[entries.len() as int], entry.round_id, entry.user));
    }
}

/// Whatever is submitted, and in whatever order, a ledger that starts empty
/// never holds two entries of one participant in one round.
pub proof fn law_one_entry_per_participant(submissions: Seq<Entry>)
    ensures
        distinct_keys(recorded_all(Seq::<Entry>::empty(), submissions)),
    decreases submissions.len(),
{
    if submissions.len() > 0 {
        law_one_entry_per_participant(submissions.drop_last());
        lemma_recorded_keeps_keys_distinct(
            recorded_all(Seq::<Entry>::empty(), submissions.drop_last()),
            submissions.last(),
        );
    }
}

/// With distinct keys, an entry found under a key is the one `key_index`
/// names.
pub proof fn lemma_key_index_is_unique(entries: Seq<Entry>, round_id: u64, user: AccountId, i: int)
    requires
        distinct_keys(entries),
        0 <= i < entries.len(),
        has_key(entries[i], round_id, user),
    ensures
        key_index(entries, round_id, user) == i,
        holds_key(entries, round_id, user),
{
    let k = key_index(entries, round_id, user);
    assert(0 <= k < entries.len() && has_key(entries[k], round_id, user));
    if k < i {
        assert(!has_key(entries[k], entries[i].round_id, entries[i].user));
    } else if i < k {
        assert(!has_key(entries[i], entries[k].round_id, entries[k].user));
    }
}

/// Replacing an entry by one with the same key keeps keys distinct.
pub proof fn lemma_update_keeps_keys_distinct(entries: Seq<Entry>, i: int, entry: Entry)
    requires
        distinct_keys(entries),
        0 <= i < entries.len(),
        has_key(entry, entries[i].round_id, entries[i].user),
    ensures
        distinct_keys(entries.update(i, entry)),
{
    let after = entries.update(i, entry);
    assert forall|a: int, b: int| 0 <= a < b < after.len() implies !has_key(
        after[a],
        after[b].round_id,
        after[b].user,
    ) by {
        assert(!has_key(entries[a], entries[b].round_id, entries[b].user));
    }
}

/// The entries of all rounds, at most one per participant and round.
pub struct EntryLedger {
    entries: Vec<Entry>,
}

impl View for EntryLedger {
    type V = Seq<Entry>;

    closed spec fn view(&self) -> Seq<Entry> {
        self.entries@
    }
}

impl EntryLedger {
    /// No two entries belong to the same participant in the same round.
    /// Every ledger that `new` made and the methods below changed is so.
    pub open spec fn wf(&self) -> bool {
        distinct_keys(self@)
    }

    /// A ledger without entries.
    pub fn new() -> (ledger: EntryLedger)
        ensures
            ledger@ == Seq::<Entry>::empty(),
            ledger.wf(),
    {
        EntryLedger { entries: Vec::new() }
    }

    /// The number of entries.
    pub fn len(&self) -> (n: usize)
        ensures
            n == self@.len(),
    {
        self.entries.len()
    }

    /// The place of the entry of `user` in round `round_id`.
    fn position(&self, round_id: u64, user: &AccountId) -> (found: Option<usize>)
        requires
            self.wf(),
        ensures
            match found {
                Some(i) => i < self@.len() && has_key(self@[i as int], round_id, *user) && i
                    == key_index(self@, round_id, *user) && holds_key(self@, round_id, *user),
                None => !holds_key(self@, round_id, *user),
            },
    {
        let mut i: usize = 0;
        while i < self.entries.len()
            invariant
                i <= self.entries.len(),
                distinct_keys(self.entries@),
                forall|j: int| 0 <= j < i ==> !has_key(#[trigger] self.entries@[j], round_id, *user),
            decreases self.entries.len() - i,
        {
            if self.entries[i].round_id == round_id && self.entries[i].user.same_as(user) {
                proof {
                    lemma_key_index_is_unique(self.entries@, round_id, *user, i as int);
                }
                return Some(i);
            }
            i += 1;
        }
        None
    }

    /// Whether `user` has an entry in round `round_id`.
    pub fn contains(&self, round_id: u64, user: &AccountId) -> (held: bool)
        requires
            self.wf(),
        ensures
            held == holds_key(self@, round_id, *user),
    {
        self.position(round_id, user).is_some()
    }

    /// The entry of `user` in round `round_id`, if there is one.
    pub fn get(&self, round_id: u64, user: &AccountId) -> (found: Option<Entry>)
        requires
            self.wf(),
        ensures
            found is Some <==> holds_key(self@, round_id, *user),
            found is Some ==> found == Some(self@[key_index(self@, round_id, *user)]) && has_key(
                found->0,
                round_id,
                *user,
            ),
    {
        match self.position(round_id, user) {
            Some(i) => Some(self.entries[i]),
            None => None,
        }
    }

    /// Records `entry` unless its participant already has one in its round.
    /// Tells whether it was recorded.
    pub fn record(&mut self, entry: Entry) -> (added: bool)
        requires
            old(self).wf(),
        ensures
            added == !holds_key(old(self)@, entry.round_id, entry.user),
            final(self)@ == recorded(old(self)@, entry),
            holds_key(final(self)@, entry.round_id, entry.user),
            final(self).wf(),
    {
        if self.position(entry.round_id, &entry.user).is_some() {
            return false;
        }
        proof {
            lemma_recorded_keeps_keys_distinct(self.entries@, entry);
        }
        self.entries.push(entry);
        true
    }

    /// Places the stake of `user` in `round` and records the entry.
    ///
    /// A participant who already has an entry in the round is turned away
    /// before the round is looked at. Otherwise the round decides as in
    /// `submit_entry`, and the entry is recorded where the round took it.
    pub fn submit(
        &mut self,
        round: &mut Round,
        user: AccountId,
        predicted_roi_bps: u32,
        stake_amount: u64,
        is_holder: bool,
        now: i64,
    ) -> (res: Result<(), LedgerError>)
        requires
            old(self).wf(),
        ensures
            holds_key(old(self)@, old(round).round_id, user) ==> res == Err::<(), LedgerError>(
                LedgerError::EntryExists,
            ) && *final(round) == *old(round) && final(self)@ == old(self)@,
            !holds_key(old(self)@, old(round).round_id, user) ==> match round_after_entry(
                *old(round),
                predicted_roi_bps,
                stake_amount,
                now,
            ) {
                Ok(next) => res == Ok::<(), LedgerError>(()) && *final(round) == next
                    && final(self)@ == old(self)@.push(
                    new_entry(user, old(round).round_id, predicted_roi_bps, stake_amount, is_holder),
                ),
                Err(e) => res == Err::<(), LedgerError>(LedgerError::Refused(e)) && *final(round)
                    == *old(round) && final(self)@ == old(self)@,
            },
            res is Ok ==> holds_key(final(self)@, old(round).round_id, user),
            final(self).wf(),
    {
        if self.position(round.round_id, &user).is_some() {
            return Err(LedgerError::EntryExists);
        }
        match submit_entry(round, user, predicted_roi_bps, stake_amount, is_holder, now) {
            Ok(entry) => {
                proof {
                    lemma_recorded_keeps_keys_distinct(self.entries@, entry);
                }
                self.entries.push(entry);
                Ok(())
            },
            Err(e) => Err(LedgerError::Refused(e)),
        }
    }

    /// Settles the claim of `user` on `round` as `claim_reward` does, on the
    /// entry that the ledger keeps, and returns the amount to pay.
    pub fn claim(&mut self, round: &Round, user: AccountId, accuracy_percentile_bps: u32) -> (res:
        Result<u64, LedgerError>)
        requires
            old(self).wf(),
        ensures
            !holds_key(old(self)@, round.round_id, user) ==> res == Err::<u64, LedgerError>(
                LedgerError::EntryMissing,
            ) && final(self)@ == old(self)@,
            holds_key(old(self)@, round.round_id, user) ==> {
                let i = key_index(old(self)@, round.round_id, user);
                let entry = old(self)@[i];
                &&& final(self)@ == old(self)@.update(
                    i,
                    entry_after_claim(*round, entry, accuracy_percentile_bps),
                )
                &&& match claim_payout(*round, entry, accuracy_percentile_bps) {
                    Ok(reward) => res == Ok::<u64, LedgerError>(reward),
                    Err(e) => res == Err::<u64, LedgerError>(LedgerError::Refused(e)),
                }
            },
            final(self).wf(),
    {
        let i: usize = match self.position(round.round_id, &user) {
            Some(i) => i,
            None => {
                return Err(LedgerError::EntryMissing);
            },
        };
        let mut entry: Entry = self.entries[i];
        let outcome = claim_reward(round, &mut entry, accuracy_percentile_bps);
        proof {
            lemma_update_keeps_keys_distinct(self.entries@, i as int, entry);
        }
        self.entries.set(i, entry);
        match outcome {
            Ok(reward) => Ok(reward),
            Err(e) => Err(LedgerError::Refused(e)),
        }
    }

    /// Settles the refund of `user` on `round` as `refund_entry` does, on the
    /// entry that the ledger keeps, and returns the amount to pay back.
    pub fn refund(&mut self, round: &Round, user: AccountId) -> (res: Result<u64, LedgerError>)
        requires
            old(self).wf(),
        ensures
            !holds_key(old(self)@, round.round_id, user) ==> res == Err::<u64, LedgerError>(
                LedgerError::EntryMissing,
            ) && final(self)@ == old(self)@,
            holds_key(old(self)@, round.round_id, user) ==> {
                let i = key_index(old(self)@, round.round_id, user);
                let entry = old(self)@[i];
                &&& final(self)@ == old(self)@.update(i, entry_after_refund(*round, entry, user))
                &&& match refund_payout(*round, entry, user) {
                    Ok(amount) => res == Ok::<u64, LedgerError>(amount),
                    Err(e) => res == Err::<u64, LedgerError>(LedgerError::Refused(e)),
                }
            },
            final(self).wf(),
    {
        let i: usize = match self.position(round.round_id, &user) {
            Some(i) => i,
            None => {
                return Err(LedgerError::EntryMissing);
            },
        };
        let mut entry: Entry = self.entries[i];
        let outcome = refund_entry(round, &mut entry, user);
        proof {
            lemma_update_keeps_keys_distinct(self.entries@, i as int, entry);
        }
        self.entries.set(i, entry);
        match outcome {
            Ok(amount) => Ok(amount),
            Err(e) => Err(LedgerError::Refused(e)),
        }
    }
}

} // verus!
