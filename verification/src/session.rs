//! Session bookkeeping of the staking test environment: which validators the
//! last session brought in and which of them were disabled, and the session
//! index and timestamp the environment drives forward.

use vstd::prelude::*;
use std::collections::HashSet;
use crate::runtime::{AccountId, EraIndex, SessionIndex, SESSIONS_PER_ERA, SESSION_ROTATION_TIME};
use crate::store::StakingStore;

verus! {

broadcast use vstd::std_specs::hash::group_hash_axioms;

/// The validators of the current session and those of them that were disabled.
pub struct SessionRecord {
    pub validators: Vec<AccountId>,
    pub disabled: HashSet<AccountId>,
}

impl SessionRecord {
    /// Every disabled account is one of the session's validators.
    pub open spec fn well_formed(&self) -> bool {
        forall|a: AccountId| self.disabled@.contains(a) ==> self.validators@.contains(a)
    }

    /// No validators and nothing disabled.
    pub fn new() -> (s: Self)
        ensures
            s.validators@ == Seq::<AccountId>::empty(),
            s.disabled@ == Set::<AccountId>::empty(),
            s.well_formed(),
    {
        SessionRecord { validators: Vec::new(), disabled: HashSet::new() }
    }
}

/// Records the validators of each new session and the ones that get disabled.
pub struct TestSessionHandler;

impl TestSessionHandler {
    /// A new session starts with `validators` and nothing disabled.
    pub fn on_new_session(session: &mut SessionRecord, validators: Vec<AccountId>)
        ensures
            final(session).validators@ == validators@,
            final(session).disabled@ == Set::<AccountId>::empty(),
            final(session).well_formed(),
    {
        session.validators = validators;
        session.disabled = HashSet::new();
    }

    /// The validator at `validator_index` of the current session is disabled.
    pub fn on_disabled(session: &mut SessionRecord, validator_index: usize)
        requires
            validator_index < old(session).validators@.len(),
        ensures
            final(session).validators@ == old(session).validators@,
            final(session).disabled@ == old(session).disabled@.insert(
                old(session).validators@[validator_index as int],
            ),
            old(session).well_formed() ==> final(session).well_formed(),
    {
        let value = session.validators[validator_index];
        session.disabled.insert(value);
    }
}

/// Once the validator at `i` is disabled, the controller of that stash is
/// reported as disabled, and every account disabled before stays disabled,
/// until the next session starts.
pub proof fn lemma_disabled_validator_reported(
    before: SessionRecord,
    after: SessionRecord,
    i: int,
    store: StakingStore,
    controller: AccountId,
)
    requires
        0 <= i < before.validators@.len(),
        after.validators@ == before.validators@,
        after.disabled@ == before.disabled@.insert(before.validators@[i]),
        store.ledger@.contains_key(controller),
        store.ledger@[controller].stash == before.validators@[i],
    ensures
        after.disabled@.contains(store.ledger@[controller].stash),
        before.disabled@.subset_of(after.disabled@),
{
}

/// Whether the stash controlled by `controller` was disabled in the current session.
pub fn is_disabled(session: &SessionRecord, store: &StakingStore, controller: AccountId) -> (r:
    bool)
    requires
        store.ledger@.contains_key(controller),
    ensures
        r == session.disabled@.contains(store.ledger@[controller].stash),
{
    let stash = match store.ledger.get(&controller) {
        Some(l) => l.stash,
        None => 0,
    };
    session.disabled.contains(&stash)
}

/// The controllers of the given validator stashes, in order.
pub fn validator_controllers(validators: &Vec<AccountId>, store: &StakingStore) -> (r: Vec<
    AccountId,
>)
    requires
        forall|i: int| 0 <= i < validators@.len() ==> store.bonded@.contains_key(#[trigger] validators@[i]),
    ensures
        r@.len() == validators@.len(),
        forall|i: int| 0 <= i < r@.len() ==> #[trigger] r@[i] == store.bonded@[validators@[i]],
{
    let mut r: Vec<AccountId> = Vec::new();
    let mut i: usize = 0;
    while i < validators.len()
        invariant
            i <= validators@.len(),
            r@.len() == i,
            forall|k: int| 0 <= k < validators@.len() ==> store.bonded@.contains_key(#[trigger] validators@[k]),
            forall|k: int| 0 <= k < i ==> #[trigger] r@[k] == store.bonded@[validators@[k]],
        decreases validators@.len() - i,
    {
        let s = validators[i];
        assert(store.bonded@.contains_key(validators@[i as int]));
        let c = match store.bonded.get(&s) {
            Some(c) => *c,
            None => 0,
        };
        r.push(c);
        i = i + 1;
    }
    r
}

/// The session index and the timestamp of the test environment.
#[derive(Clone, Copy, Debug, PartialEq, Eq, Structural)]
pub struct SessionClock {
    pub current_index: SessionIndex,
    pub now: u64,
}

/// The clock after rotating sessions until `index` is the current one; each
/// rotation moves the timestamp forward by one second.
pub open spec fn spec_start_session(clock: SessionClock, index: SessionIndex) -> SessionClock {
    SessionClock {
        current_index: index,
        now: (clock.now + SESSION_ROTATION_TIME * (index - clock.current_index)) as u64,
    }
}

/// Rotating to `index` is possible: it is not behind the current session and
/// the timestamp does not overflow.
pub open spec fn can_start_session(clock: SessionClock, index: SessionIndex) -> bool {
    &&& clock.current_index <= index
    &&& clock.now + SESSION_ROTATION_TIME * (index - clock.current_index) <= u64::MAX
}

/// Rotate sessions, one second apart, until `index` is the current session.
pub fn start_session(clock: &mut SessionClock, index: SessionIndex)
    requires
        can_start_session(*old(clock), index),
    ensures
        *final(clock) == spec_start_session(*old(clock), index),
{
    let rotations = index - clock.current_index;
    let mut i: SessionIndex = 0;
    while i < rotations
        invariant
            i <= rotations,
            rotations == index - old(clock).current_index,
            can_start_session(*old(clock), index),
            clock.current_index == old(clock).current_index + i,
            clock.now == old(clock).now + SESSION_ROTATION_TIME * i,
        decreases rotations - i,
    {
        clock.now = clock.now + SESSION_ROTATION_TIME;
        clock.current_index = clock.current_index + 1;
        i = i + 1;
    }
}

/// Rotate sessions until the first session of era `era_index` is the current one.
pub fn start_era(clock: &mut SessionClock, era_index: EraIndex)
    requires
        era_index * SESSIONS_PER_ERA <= u32::MAX,
        can_start_session(*old(clock), (era_index * SESSIONS_PER_ERA) as SessionIndex),
    ensures
        *final(clock) == spec_start_session(*old(clock), (era_index * SESSIONS_PER_ERA) as SessionIndex),
{
    start_session(clock, era_index * SESSIONS_PER_ERA);
}

/// Rotate to the next session.
pub fn advance_session(clock: &mut SessionClock)
    requires
        old(clock).current_index < u32::MAX,
        old(clock).now + SESSION_ROTATION_TIME <= u64::MAX,
    ensures
        *final(clock) == spec_start_session(*old(clock), (old(clock).current_index + 1) as SessionIndex),
{
    start_session(clock, clock.current_index + 1);
}

/// Starting session `a` and then session `b` is the same as starting session `b` directly.
pub proof fn lemma_start_session_composes(clock: SessionClock, a: SessionIndex, b: SessionIndex)
    requires
        clock.current_index <= a <= b,
        can_start_session(clock, b),
    ensures
        can_start_session(clock, a),
        can_start_session(spec_start_session(clock, a), b),
        spec_start_session(spec_start_session(clock, a), b) == spec_start_session(clock, b),
{
}

/// Starting the session that is already current changes nothing.
pub proof fn lemma_start_current_session(clock: SessionClock)
    ensures
        can_start_session(clock, clock.current_index),
        spec_start_session(clock, clock.current_index) == clock,
{
}

/// After starting era `e`, the current session is the first one of era `e`.
pub proof fn lemma_start_era_reaches_era(clock: SessionClock, e: EraIndex)
    requires
        e * SESSIONS_PER_ERA <= u32::MAX,
        can_start_session(clock, (e * SESSIONS_PER_ERA) as SessionIndex),
    ensures
        spec_start_session(clock, (e * SESSIONS_PER_ERA) as SessionIndex).current_index / SESSIONS_PER_ERA == e,
        spec_start_session(clock, (e * SESSIONS_PER_ERA) as SessionIndex).current_index % SESSIONS_PER_ERA == 0,
{
}

} // verus!
