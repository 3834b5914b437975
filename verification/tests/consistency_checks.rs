use std::collections::HashMap;
use crml::checks::{
    assert_is_stash, assert_ledger_consistent, check_exposure, check_exposure_all,
    check_nominator_all, check_nominator_exposure, MockError,
};
use crml::store::{Exposure, IndividualExposure, StakingLedger, StakingStore, UnlockChunk};

fn ie(who: u64, value: u64) -> IndividualExposure {
    IndividualExposure { who, value }
}

/// Validators 11 and 21 (controllers 10 and 20), nominator 101 (controller 100)
/// backing both with 250 each out of 600 active.
fn sample_store() -> StakingStore {
    let mut bonded = HashMap::new();
    bonded.insert(11, 10);
    bonded.insert(21, 20);
    bonded.insert(101, 100);
    let mut ledger = HashMap::new();
    ledger.insert(10, StakingLedger { stash: 11, total: 1000, active: 1000, unlocking: vec![] });
    ledger.insert(
        20,
        StakingLedger {
            stash: 21,
            total: 1000,
            active: 700,
            unlocking: vec![UnlockChunk { value: 200, era: 3 }, UnlockChunk { value: 100, era: 4 }],
        },
    );
    ledger.insert(100, StakingLedger { stash: 101, total: 600, active: 600, unlocking: vec![] });
    let mut stakers = HashMap::new();
    stakers.insert(11, Exposure { total: 1250, own: 1000, others: vec![ie(101, 250)] });
    stakers.insert(21, Exposure { total: 950, own: 700, others: vec![ie(101, 250)] });
    StakingStore {
        bonded,
        ledger,
        stakers,
        current_elected: vec![11, 21],
        nominators: vec![101],
        current_era: 1,
        current_era_start_session_index: 3,
        bonded_eras: vec![(0, 0), (1, 3)],
    }
}

#[test]
fn stash_check() {
    let s = sample_store();
    assert_eq!(assert_is_stash(&s, 11), Ok(()));
    assert_eq!(assert_is_stash(&s, 10), Err(MockError::NotAStash));
}

#[test]
fn exposures_add_up() {
    let s = sample_store();
    assert_eq!(check_exposure(&s, 11), Ok(()));
    assert_eq!(check_exposure(&s, 21), Ok(()));
    assert_eq!(check_exposure(&s, 101), Ok(()));
    assert_eq!(check_exposure(&s, 12), Err(MockError::NotAStash));
    assert_eq!(check_exposure_all(&s), Ok(()));
}

#[test]
fn wrong_total_exposure_is_found() {
    let mut s = sample_store();
    s.stakers.insert(21, Exposure { total: 951, own: 700, others: vec![ie(101, 250)] });
    assert_eq!(check_exposure(&s, 21), Err(MockError::WrongTotalExposure));
    assert_eq!(check_exposure_all(&s), Err(MockError::WrongTotalExposure));
    s.stakers.insert(21, Exposure { total: 900, own: 700, others: vec![ie(101, 250)] });
    assert_eq!(check_exposure(&s, 21), Err(MockError::WrongTotalExposure));
    s.stakers.insert(21, Exposure { total: 10, own: 700, others: vec![] });
    assert_eq!(check_exposure(&s, 21), Err(MockError::WrongTotalExposure));
}

#[test]
fn exposure_sum_does_not_wrap() {
    let mut s = sample_store();
    s.stakers.insert(
        21,
        Exposure { total: u64::MAX, own: u64::MAX, others: vec![ie(101, 1)] },
    );
    assert_eq!(check_exposure(&s, 21), Err(MockError::WrongTotalExposure));
}

#[test]
fn check_all_reports_first_failure() {
    let mut s = sample_store();
    s.current_elected = vec![11, 12, 21];
    s.stakers.insert(21, Exposure { total: 0, own: 1, others: vec![] });
    assert_eq!(check_exposure_all(&s), Err(MockError::NotAStash));
}

#[test]
fn nominator_does_not_over_spend() {
    let s = sample_store();
    assert_eq!(check_nominator_exposure(&s, 101), Ok(()));
    assert_eq!(check_nominator_all(&s), Ok(()));
    assert_eq!(check_nominator_exposure(&s, 100), Err(MockError::NotAStash));
}

#[test]
fn nominator_exactly_at_stake_fails() {
    let mut s = sample_store();
    s.ledger.insert(100, StakingLedger { stash: 101, total: 500, active: 500, unlocking: vec![] });
    assert_eq!(check_nominator_exposure(&s, 101), Err(MockError::NominatorOverSpent));
}

#[test]
fn nominator_just_below_stake_passes() {
    let mut s = sample_store();
    s.ledger.insert(100, StakingLedger { stash: 101, total: 501, active: 501, unlocking: vec![] });
    assert_eq!(check_nominator_exposure(&s, 101), Ok(()));
}

#[test]
fn other_entries_do_not_count_for_a_nominator() {
    let mut s = sample_store();
    s.stakers.insert(11, Exposure { total: 1257, own: 1000, others: vec![ie(101, 250), ie(102, 7)] });
    s.stakers.insert(31, Exposure { total: 10_000, own: 0, others: vec![ie(101, 10_000)] });
    assert_eq!(check_nominator_exposure(&s, 101), Ok(()));
}

#[test]
fn nominator_with_nothing_exposed_and_no_stake_fails() {
    let mut s = sample_store();
    s.stakers.clear();
    s.ledger.insert(100, StakingLedger { stash: 101, total: 0, active: 0, unlocking: vec![] });
    assert_eq!(check_nominator_exposure(&s, 101), Err(MockError::NominatorOverSpent));
}

#[test]
fn nominator_over_spending_is_found() {
    let mut s = sample_store();
    s.ledger.insert(100, StakingLedger { stash: 101, total: 499, active: 499, unlocking: vec![] });
    assert_eq!(check_nominator_exposure(&s, 101), Err(MockError::NominatorOverSpent));
    assert_eq!(check_nominator_all(&s), Err(MockError::NominatorOverSpent));
}

#[test]
fn ledgers_account_for_all_funds() {
    let s = sample_store();
    assert_eq!(assert_ledger_consistent(&s, 11), Ok(()));
    assert_eq!(assert_ledger_consistent(&s, 21), Ok(()));
    assert_eq!(assert_ledger_consistent(&s, 101), Ok(()));
    assert_eq!(assert_ledger_consistent(&s, 31), Err(MockError::NotAStash));
}

#[test]
fn inconsistent_and_missing_ledgers() {
    let mut s = sample_store();
    s.ledger.insert(
        20,
        StakingLedger { stash: 21, total: 1000, active: 700, unlocking: vec![UnlockChunk { value: 200, era: 3 }] },
    );
    assert_eq!(assert_ledger_consistent(&s, 21), Err(MockError::InconsistentLedger));
    s.ledger.remove(&20);
    assert_eq!(assert_ledger_consistent(&s, 21), Err(MockError::MissingLedger));
    s.bonded.insert(0, 5);
    assert_eq!(assert_ledger_consistent(&s, 0), Err(MockError::MissingLedger));
}
