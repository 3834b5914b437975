//! The runtime calls that bond a validator or a nominator in a test
//! environment, as values: each helper says which calls are made, in order.

use vstd::prelude::*;
use crate::runtime::{AccountId, Balance};

verus! {

/// Where the reward payment should be made.
#[derive(Clone, Copy, Debug, PartialEq, Eq, Structural)]
pub enum RewardDestination {
    /// Pay into the stash account, increasing the amount at stake accordingly.
    Staked,
    /// Pay into the stash account, not increasing the amount at stake.
    Stash,
    /// Pay into the controller account.
    Controller,
}

/// A call made on the test runtime while setting up stakers; each must succeed.
#[derive(Clone, Debug, PartialEq, Eq)]
pub enum SetupCall {
    /// Make the free balance of `who` equal to `balance`.
    SetFreeBalance { who: AccountId, balance: Balance },
    /// Signed by `stash`: bond `value` of it under `controller`, paying rewards to `payee`.
    Bond { stash: AccountId, controller: AccountId, value: Balance, payee: RewardDestination },
    /// Signed by `controller`: declare the desire to validate, with default preferences.
    Validate { controller: AccountId },
    /// Signed by `controller`: nominate `targets`.
    Nominate { controller: AccountId, targets: Vec<AccountId> },
}

/// Whether a call is `Nominate { controller, targets }` with the given targets.
pub open spec fn is_nominate(call: SetupCall, controller: AccountId, targets: Seq<AccountId>) -> bool {
    match call {
        SetupCall::Nominate { controller: c, targets: t } => c == controller && t@ == targets,
        _ => false,
    }
}

/// The calls that fund `stash` and `ctrl` with `val` each and bond `val` of
/// `stash` under `ctrl`, with rewards paid to the controller.
pub open spec fn spec_fund_and_bond(stash: AccountId, ctrl: AccountId, val: Balance) -> Seq<SetupCall> {
    seq![
        SetupCall::SetFreeBalance { who: stash, balance: val },
        SetupCall::SetFreeBalance { who: ctrl, balance: val },
        SetupCall::Bond { stash, controller: ctrl, value: val, payee: RewardDestination::Controller },
    ]
}

/// Fund `stash` and `ctrl` with `val` each, bond `val` of `stash` under `ctrl`
/// with rewards paid to the controller, and declare `ctrl` a validator.
pub fn bond_validator(stash: AccountId, ctrl: AccountId, val: Balance) -> (calls: Vec<SetupCall>)
    ensures
        calls@ == spec_fund_and_bond(stash, ctrl, val).push((SetupCall::Validate { controller: ctrl })),
{
    let calls = vec![
        SetupCall::SetFreeBalance { who: stash, balance: val },
        SetupCall::SetFreeBalance { who: ctrl, balance: val },
        SetupCall::Bond { stash, controller: ctrl, value: val, payee: RewardDestination::Controller },
        SetupCall::Validate { controller: ctrl },
    ];
    assert(calls@ =~= spec_fund_and_bond(stash, ctrl, val).push(SetupCall::Validate { controller: ctrl }));
    calls
}

/// Fund `stash` and `ctrl` with `val` each, bond `val` of `stash` under `ctrl`
/// with rewards paid to the controller, and nominate `target` from `ctrl`.
pub fn bond_nominator(
    stash: AccountId,
    ctrl: AccountId,
    val: Balance,
    target: Vec<AccountId>,
) -> (calls: Vec<SetupCall>)
    ensures
        calls@.len() == 4,
        calls@.take(3) == spec_fund_and_bond(stash, ctrl, val),
        is_nominate(calls@[3], ctrl, target@),
{
    let calls = vec![
        SetupCall::SetFreeBalance { who: stash, balance: val },
        SetupCall::SetFreeBalance { who: ctrl, balance: val },
        SetupCall::Bond { stash, controller: ctrl, value: val, payee: RewardDestination::Controller },
        SetupCall::Nominate { controller: ctrl, targets: target },
    ];
    assert(calls@.take(3) =~= spec_fund_and_bond(stash, ctrl, val));
    calls
}

} // verus!
