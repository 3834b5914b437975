use std::collections::HashMap;
use crml::session::{
    advance_session, is_disabled, start_era, start_session, validator_controllers, SessionClock,
    SessionRecord, TestSessionHandler,
};
use crml::store::{StakingLedger, StakingStore};

fn store_with_ledgers(pairs: &[(u64, u64)]) -> StakingStore {
    let mut bonded = HashMap::new();
    let mut ledger = HashMap::new();
    for &(stash, ctrl) in pairs {
        bonded.insert(stash, ctrl);
        ledger.insert(ctrl, StakingLedger { stash, total: 100, active: 100, unlocking: vec![] });
    }
    StakingStore {
        bonded,
        ledger,
        stakers: HashMap::new(),
        current_elected: vec![],
        nominators: vec![],
        current_era: 0,
        current_era_start_session_index: 0,
        bonded_eras: vec![],
    }
}

#[test]
fn new_session_clears_disabled() {
    let mut s = SessionRecord::new();
    TestSessionHandler::on_new_session(&mut s, vec![11, 21, 31]);
    TestSessionHandler::on_disabled(&mut s, 1);
    assert!(s.disabled.contains(&21));
    TestSessionHandler::on_new_session(&mut s, vec![11, 21]);
    assert_eq!(s.validators, vec![11, 21]);
    assert!(s.disabled.is_empty());
}

#[test]
fn disabled_validator_is_reported_by_controller() {
    let store = store_with_ledgers(&[(11, 10), (21, 20), (31, 30)]);
    let mut s = SessionRecord::new();
    TestSessionHandler::on_new_session(&mut s, vec![11, 21, 31]);
    assert!(!is_disabled(&s, &store, 10));
    TestSessionHandler::on_disabled(&mut s, 0);
    TestSessionHandler::on_disabled(&mut s, 2);
    assert!(is_disabled(&s, &store, 10));
    assert!(!is_disabled(&s, &store, 20));
    assert!(is_disabled(&s, &store, 30));
    assert_eq!(s.disabled.len(), 2);
}

#[test]
fn controllers_of_validators() {
    let store = store_with_ledgers(&[(11, 10), (21, 20), (31, 30)]);
    assert_eq!(validator_controllers(&vec![31, 11], &store), vec![30, 10]);
    assert!(validator_controllers(&vec![], &store).is_empty());
}

#[test]
fn start_session_rotates_one_second_apart() {
    let mut c = SessionClock { current_index: 2, now: 30_000 };
    start_session(&mut c, 5);
    assert_eq!(c, SessionClock { current_index: 5, now: 33_000 });
    start_session(&mut c, 5);
    assert_eq!(c, SessionClock { current_index: 5, now: 33_000 });
}

#[test]
fn start_session_in_two_steps_equals_one() {
    let mut a = SessionClock { current_index: 0, now: 0 };
    let mut b = a;
    start_session(&mut a, 3);
    start_session(&mut a, 7);
    start_session(&mut b, 7);
    assert_eq!(a, b);
}

#[test]
fn start_era_reaches_first_session_of_era() {
    let mut c = SessionClock { current_index: 1, now: 30_000 };
    start_era(&mut c, 2);
    assert_eq!(c.current_index, 6);
    assert_eq!(c.now, 35_000);
    assert_eq!(c.current_index % 3, 0);
}

#[test]
fn advance_session_moves_one() {
    let mut c = SessionClock { current_index: 9, now: 1 };
    advance_session(&mut c);
    assert_eq!(c, SessionClock { current_index: 10, now: 1001 });
}
