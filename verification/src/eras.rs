//! Era-level helpers: rewarding the elected validators and choosing the
//! session at which an offence in a given era is slashed.

use vstd::prelude::*;
use crate::runtime::{AccountId, EraIndex, SessionIndex};
use crate::store::StakingStore;

verus! {

/// One reward point for each elected validator, in order.
pub fn reward_all_elected(current_elected: &Vec<AccountId>) -> (rewards: Vec<(AccountId, u32)>)
    ensures
        rewards@.len() == current_elected@.len(),
        forall|i: int| 0 <= i < rewards@.len() ==> #[trigger] rewards@[i] == (current_elected@[i], 1u32),
{
    let mut rewards: Vec<(AccountId, u32)> = Vec::new();
    let mut i: usize = 0;
    while i < current_elected.len()
        invariant
            i <= current_elected@.len(),
            rewards@.len() == i,
            forall|k: int| 0 <= k < i ==> #[trigger] rewards@[k] == (current_elected@[k], 1u32),
        decreases current_elected@.len() - i,
    {
        rewards.push((current_elected[i], 1));
        i = i + 1;
    }
    rewards
}

/// The first session of era `era` for slashing an offence committed in it:
/// the bonded eras are scanned in order up to the first one not before `era`;
/// if that one is `era`, its first session is used; otherwise an offence in
/// the current era falls at the current era's first session, and any other
/// era cannot be slashed.
pub open spec fn spec_offence_session(
    bonded_eras: Seq<(EraIndex, SessionIndex)>,
    current_era: EraIndex,
    current_era_start: SessionIndex,
    era: EraIndex,
) -> Option<SessionIndex>
    decreases bonded_eras.len(),
{
    if bonded_eras.len() > 0 && bonded_eras[0].0 == era {
        Some(bonded_eras[0].1)
    } else if bonded_eras.len() > 0 && bonded_eras[0].0 < era {
        spec_offence_session(bonded_eras.drop_first(), current_era, current_era_start, era)
    } else if current_era == era {
        Some(current_era_start)
    } else {
        None
    }
}

/// The first session of the era in which to slash an offence committed in
/// `era`, or `None` where the era cannot be slashed.
pub fn on_offence_in_era(store: &StakingStore, era: EraIndex) -> (r: Option<SessionIndex>)
    ensures
        r == spec_offence_session(
            store.bonded_eras@,
            store.current_era,
            store.current_era_start_session_index,
            era,
        ),
{
    let ghost eras = store.bonded_eras@;
    let ghost target = spec_offence_session(
        eras,
        store.current_era,
        store.current_era_start_session_index,
        era,
    );
    let mut i: usize = 0;
    assert(eras.skip(0) =~= eras);
    while i < store.bonded_eras.len()
        invariant
            i <= eras.len(),
            eras == store.bonded_eras@,
            target == spec_offence_session(
                eras.skip(i as int),
                store.current_era,
                store.current_era_start_session_index,
                era,
            ),
            target == spec_offence_session(
                eras,
                store.current_era,
                store.current_era_start_session_index,
                era,
            ),
        ensures
            i <= eras.len(),
            target == spec_offence_session(
                eras.skip(i as int),
                store.current_era,
                store.current_era_start_session_index,
                era,
            ),
            i == eras.len() || eras[i as int].0 > era,
        decreases eras.len() - i,
    {
        let (bonded_era, start_session) = store.bonded_eras[i];
        assert(eras.skip(i as int)[0] == eras[i as int]);
        if bonded_era == era {
            return Some(start_session);
        } else if bonded_era > era {
            break;
        }
        assert(eras.skip(i as int).drop_first() =~= eras.skip(i + 1));
        i = i + 1;
    }
    assert(i < eras.len() ==> eras.skip(i as int)[0] == eras[i as int]);
    if store.current_era == era {
        Some(store.current_era_start_session_index)
    } else {
        None
    }
}

/// An offence in the current era can always be slashed.
pub proof fn lemma_current_era_offence_slashable(
    bonded_eras: Seq<(EraIndex, SessionIndex)>,
    current_era: EraIndex,
    current_era_start: SessionIndex,
)
    ensures
        spec_offence_session(bonded_eras, current_era, current_era_start, current_era) is Some,
    decreases bonded_eras.len(),
{
    if bonded_eras.len() > 0 && bonded_eras[0].0 < current_era {
        lemma_current_era_offence_slashable(bonded_eras.drop_first(), current_era, current_era_start);
    }
}

/// The first session of the current era's slashing window for an offence
/// committed now.
pub fn on_offence_now(store: &StakingStore) -> (r: SessionIndex)
    ensures
        spec_offence_session(
            store.bonded_eras@,
            store.current_era,
            store.current_era_start_session_index,
            store.current_era,
        ) == Some(r),
{
    proof {
        lemma_current_era_offence_slashable(
            store.bonded_eras@,
            store.current_era,
            store.current_era_start_session_index,
        );
    }
    match on_offence_in_era(store, store.current_era) {
        Some(s) => s,
        None => 0,
    }
}

} // verus!
