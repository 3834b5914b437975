use std::collections::HashMap;
use crml::eras::{on_offence_in_era, on_offence_now, reward_all_elected};
use crml::store::StakingStore;

fn store(current_era: u32, current_start: u32, bonded_eras: Vec<(u32, u32)>) -> StakingStore {
    StakingStore {
        bonded: HashMap::new(),
        ledger: HashMap::new(),
        stakers: HashMap::new(),
        current_elected: vec![],
        nominators: vec![],
        current_era,
        current_era_start_session_index: current_start,
        bonded_eras,
    }
}

#[test]
fn every_elected_gets_one_point() {
    assert_eq!(reward_all_elected(&vec![11, 21, 31]), vec![(11, 1), (21, 1), (31, 1)]);
    assert!(reward_all_elected(&vec![]).is_empty());
}

#[test]
fn offence_in_bonded_era_uses_its_first_session() {
    let s = store(3, 9, vec![(1, 3), (2, 6), (3, 9)]);
    assert_eq!(on_offence_in_era(&s, 1), Some(3));
    assert_eq!(on_offence_in_era(&s, 2), Some(6));
    assert_eq!(on_offence_in_era(&s, 3), Some(9));
}

#[test]
fn offence_in_unbonded_era_cannot_be_slashed() {
    let s = store(3, 9, vec![(1, 3), (2, 6), (3, 9)]);
    assert_eq!(on_offence_in_era(&s, 0), None);
    assert_eq!(on_offence_in_era(&s, 4), None);
}

#[test]
fn offence_in_current_era_falls_back_to_its_start() {
    let s = store(5, 15, vec![(1, 3), (2, 6)]);
    assert_eq!(on_offence_in_era(&s, 5), Some(15));
    let s2 = store(5, 15, vec![]);
    assert_eq!(on_offence_in_era(&s2, 5), Some(15));
}

#[test]
fn scan_stops_at_first_later_era() {
    let s = store(2, 8, vec![(3, 9), (2, 6)]);
    assert_eq!(on_offence_in_era(&s, 2), Some(8));
}

#[test]
fn offence_now_is_always_slashable() {
    assert_eq!(on_offence_now(&store(3, 9, vec![(1, 3), (2, 6), (3, 10)])), 10);
    assert_eq!(on_offence_now(&store(3, 9, vec![(1, 3)])), 9);
    assert_eq!(on_offence_now(&store(0, 0, vec![])), 0);
}
