//! The staking records that the test helpers read, held as plain values:
//! a snapshot of the staking pallet's storage.

use vstd::prelude::*;
use std::collections::HashMap;
use crate::runtime::{AccountId, Balance, EraIndex, SessionIndex};

verus! {

/// The sum of a sequence of integers.
pub open spec fn seq_sum(s: Seq<int>) -> int
    decreases s.len(),
{
    if s.len() == 0 {
        0
    } else {
        seq_sum(s.drop_last()) + s.last()
    }
}

/// A sum of non-negative terms is at least the sum of any of its prefixes.
pub proof fn lemma_seq_sum_prefix_le(s: Seq<int>, i: int)
    requires
        0 <= i <= s.len(),
        forall|k: int| 0 <= k < s.len() ==> s[k] >= 0,
    ensures
        seq_sum(s.take(i)) <= seq_sum(s),
    decreases s.len(),
{
    if i < s.len() {
        assert(s.drop_last().take(i) =~= s.take(i));
        lemma_seq_sum_prefix_le(s.drop_last(), i);
    } else {
        assert(s.take(i) =~= s);
    }
}

/// Extending a prefix by one element adds that element to the sum.
pub proof fn lemma_seq_sum_take_next(s: Seq<int>, i: int)
    requires
        0 <= i < s.len(),
    ensures
        seq_sum(s.take(i + 1)) == seq_sum(s.take(i)) + s[i],
{
    assert(s.take(i + 1).drop_last() =~= s.take(i));
}

/// The status of a staker.
#[derive(Clone, Debug, PartialEq, Eq)]
pub enum StakerStatus {
    /// Chilling.
    Idle,
    /// Declared desire in validating or already participating in it.
    Validator,
    /// Nominating for a group of other stakers.
    Nominator(Vec<AccountId>),
}

/// The status of a staker, with the nominated targets as a sequence.
pub enum StakerStatusView {
    Idle,
    Validator,
    Nominator(Seq<AccountId>),
}

impl View for StakerStatus {
    type V = StakerStatusView;

    open spec fn view(&self) -> StakerStatusView {
        match self {
            StakerStatus::Idle => StakerStatusView::Idle,
            StakerStatus::Validator => StakerStatusView::Validator,
            StakerStatus::Nominator(targets) => StakerStatusView::Nominator(targets@),
        }
    }
}

/// The amount of exposure (to slashing) that an individual nominator has.
#[derive(Clone, Copy, Debug, PartialEq, Eq)]
pub struct IndividualExposure {
    /// The stash account of the nominator in question.
    pub who: AccountId,
    /// Amount of funds exposed.
    pub value: Balance,
}

/// A snapshot of the stake backing a single validator in the system.
#[derive(Clone, Debug, PartialEq, Eq)]
pub struct Exposure {
    /// The total balance backing this validator.
    pub total: Balance,
    /// The validator's own stash balance that is exposed.
    pub own: Balance,
    /// The portions of nominators' stashes that are exposed.
    pub others: Vec<IndividualExposure>,
}

/// An exposure, with the nominators' portions as a sequence.
pub struct ExposureView {
    pub total: Balance,
    pub own: Balance,
    pub others: Seq<IndividualExposure>,
}

impl View for Exposure {
    type V = ExposureView;

    open spec fn view(&self) -> ExposureView {
        ExposureView { total: self.total, own: self.own, others: self.others@ }
    }
}

/// Just a Balance/EraIndex tuple to encode when a chunk of funds will be unlocked.
#[derive(Clone, Copy, Debug, PartialEq, Eq)]
pub struct UnlockChunk {
    /// Amount of funds to be unlocked.
    pub value: Balance,
    /// Era number at which point it'll be unlocked.
    pub era: EraIndex,
}

/// The ledger of a (bonded) stash.
#[derive(Clone, Debug, PartialEq, Eq)]
pub struct StakingLedger {
    /// The stash account whose balance is actually locked and at stake.
    pub stash: AccountId,
    /// The total amount of the stash's balance that we are currently accounting for.
    pub total: Balance,
    /// The total amount of the stash's balance that will be at stake in any forthcoming rounds.
    pub active: Balance,
    /// Any balance that is becoming free, which may eventually be transferred out of the stash.
    pub unlocking: Vec<UnlockChunk>,
}

/// The sum of the nominators' exposed values.
pub open spec fn others_total(others: Seq<IndividualExposure>) -> int {
    seq_sum(others.map_values(|e: IndividualExposure| e.value as int))
}

/// The part of an exposure's nominator list that belongs to `who`.
pub open spec fn stake_of_in(others: Seq<IndividualExposure>, who: AccountId) -> int {
    seq_sum(others.map_values(|e: IndividualExposure| if e.who == who { e.value as int } else { 0 }))
}

/// The entries of a nominator list that belong to `who`, in order.
pub open spec fn entries_of(others: Seq<IndividualExposure>, who: AccountId) -> Seq<IndividualExposure> {
    others.filter(|e: IndividualExposure| e.who == who)
}

/// The part of a nominator list that belongs to `who` is the total of `who`'s entries.
pub proof fn lemma_stake_of_in_entries(others: Seq<IndividualExposure>, who: AccountId)
    ensures
        stake_of_in(others, who) == others_total(entries_of(others, who)),
    decreases others.len(),
{
    let own = |e: IndividualExposure| if e.who == who { e.value as int } else { 0 };
    let val = |e: IndividualExposure| e.value as int;
    if others.len() > 0 {
        let prefix = others.drop_last();
        lemma_stake_of_in_entries(prefix, who);
        assert(others.map_values(own).drop_last() =~= prefix.map_values(own));
        let sub = entries_of(prefix, who);
        reveal_with_fuel(Seq::filter, 1);
        if others.last().who == who {
            assert(entries_of(others, who) == sub.push(others.last()));
            assert(sub.push(others.last()).map_values(val).drop_last() =~= sub.map_values(val));
        } else {
            assert(entries_of(others, who) == sub);
        }
    } else {
        assert(others.map_values(own) =~= Seq::<int>::empty());
        assert(entries_of(others, who).map_values(val) =~= Seq::<int>::empty());
    }
}

/// The sum of the values of a ledger's unlocking chunks.
pub open spec fn unlocking_total(chunks: Seq<UnlockChunk>) -> int {
    seq_sum(chunks.map_values(|c: UnlockChunk| c.value as int))
}

/// The staking records that the test helpers read.
pub struct StakingStore {
    /// Map from all locked "stash" accounts to the controller account.
    pub bonded: HashMap<AccountId, AccountId>,
    /// Map from all (unlocked) "controller" accounts to the info regarding the staking.
    pub ledger: HashMap<AccountId, StakingLedger>,
    /// Nominators for a particular account that is in action right now; a stash
    /// without an entry is exposed by the default (empty) exposure.
    pub stakers: HashMap<AccountId, Exposure>,
    /// The currently elected validator set, by stash.
    pub current_elected: Vec<AccountId>,
    /// The stashes of all nominators.
    pub nominators: Vec<AccountId>,
    /// The current era index.
    pub current_era: EraIndex,
    /// The session index at which the current era started.
    pub current_era_start_session_index: SessionIndex,
    /// A mapping from still-bonded eras to the first session index of that era,
    /// ordered by era.
    pub bonded_eras: Vec<(EraIndex, SessionIndex)>,
}

impl StakingStore {
    /// The exposure recorded for `stash`, or the default (empty) exposure.
    pub open spec fn exposure_of(&self, stash: AccountId) -> ExposureView {
        if self.stakers@.contains_key(stash) {
            self.stakers@[stash]@
        } else {
            ExposureView { total: 0, own: 0, others: Seq::empty() }
        }
    }

    /// The balance of a stash that can be slashed: the active balance of the
    /// ledger of its controller, or zero.
    pub open spec fn slashable_balance_of(&self, stash: AccountId) -> int {
        if self.bonded@.contains_key(stash) && self.ledger@.contains_key(self.bonded@[stash]) {
            self.ledger@[self.bonded@[stash]].active as int
        } else {
            0
        }
    }

    /// The values that nominator `who` has exposed behind the given validators, in order.
    pub open spec fn nominated_stakes(&self, validators: Seq<AccountId>, who: AccountId) -> Seq<int> {
        validators.map_values(|v: AccountId| stake_of_in(self.exposure_of(v).others, who))
    }

    /// The total that nominator `who` has exposed behind the elected validators.
    pub open spec fn nominated_total(&self, who: AccountId) -> int {
        seq_sum(self.nominated_stakes(self.current_elected@, who))
    }
}

} // verus!
