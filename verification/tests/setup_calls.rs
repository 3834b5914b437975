use crml::setup::{bond_nominator, bond_validator, RewardDestination, SetupCall};

#[test]
fn validator_is_funded_bonded_and_validating() {
    assert_eq!(
        bond_validator(81, 80, 1000),
        vec![
            SetupCall::SetFreeBalance { who: 81, balance: 1000 },
            SetupCall::SetFreeBalance { who: 80, balance: 1000 },
            SetupCall::Bond { stash: 81, controller: 80, value: 1000, payee: RewardDestination::Controller },
            SetupCall::Validate { controller: 80 },
        ]
    );
}

#[test]
fn nominator_is_funded_bonded_and_nominating() {
    assert_eq!(
        bond_nominator(91, 90, 500, vec![11, 21]),
        vec![
            SetupCall::SetFreeBalance { who: 91, balance: 500 },
            SetupCall::SetFreeBalance { who: 90, balance: 500 },
            SetupCall::Bond { stash: 91, controller: 90, value: 500, payee: RewardDestination::Controller },
            SetupCall::Nominate { controller: 90, targets: vec![11, 21] },
        ]
    );
}
