//! The builder of the staking test environment and the genesis it describes.

use vstd::prelude::*;
use crate::runtime::{
    perbill_parts_from_percent, AccountId, Balance, EraIndex, INIT_TIMESTAMP, SLASH_REWARD_PERCENT,
};
use crate::session::{SessionRecord, TestSessionHandler};
use crate::store::{StakerStatus, StakerStatusView};

verus! {

/// The per-test constants of the runtime: the existential deposit and the
/// number of eras a slash is deferred by.
#[derive(Clone, Copy, Debug, PartialEq, Eq, Structural)]
pub struct AssociatedConsts {
    pub existential_deposit: u64,
    pub slash_defer_duration: EraIndex,
}

impl AssociatedConsts {
    /// Both constants start at zero.
    pub fn new() -> (c: Self)
        ensures
            c.existential_deposit == 0,
            c.slash_defer_duration == 0,
    {
        AssociatedConsts { existential_deposit: 0, slash_defer_duration: 0 }
    }
}

/// The existential deposit of the test runtime.
pub struct ExistentialDeposit;

impl ExistentialDeposit {
    pub fn get(consts: &AssociatedConsts) -> (v: u64)
        ensures
            v == consts.existential_deposit,
    {
        consts.existential_deposit
    }
}

/// The slash defer duration of the test runtime.
pub struct SlashDeferDuration;

impl SlashDeferDuration {
    pub fn get(consts: &AssociatedConsts) -> (v: EraIndex)
        ensures
            v == consts.slash_defer_duration,
    {
        consts.slash_defer_duration
    }
}

/// Describes a staking test environment.
pub struct ExtBuilder {
    pub existential_deposit: u64,
    pub validator_pool: bool,
    pub nominate: bool,
    pub validator_count: u32,
    pub minimum_validator_count: u32,
    pub slash_defer_duration: EraIndex,
    pub fair: bool,
    pub num_validators: Option<u32>,
    pub invulnerables: Vec<u64>,
    pub has_stakers: bool,
    pub minimum_bond: u64,
}

impl Default for ExtBuilder {
    fn default() -> (b: Self)
        ensures
            b.existential_deposit == 1,
            !b.validator_pool,
            b.nominate,
            b.validator_count == 2,
            b.minimum_validator_count == 0,
            b.slash_defer_duration == 0,
            b.fair,
            b.num_validators is None,
            b.invulnerables@ == Seq::<u64>::empty(),
            b.has_stakers,
            b.minimum_bond == 1,
    {
        ExtBuilder {
            existential_deposit: 1,
            validator_pool: false,
            nominate: true,
            validator_count: 2,
            minimum_validator_count: 0,
            slash_defer_duration: 0,
            fair: true,
            num_validators: None,
            invulnerables: Vec::new(),
            has_stakers: true,
            minimum_bond: 1,
        }
    }
}

impl ExtBuilder {
    pub fn existential_deposit(self, existential_deposit: u64) -> (b: Self)
        ensures
            b == (ExtBuilder { existential_deposit, ..self }),
    {
        let mut b = self;
        b.existential_deposit = existential_deposit;
        b
    }

    pub fn validator_pool(self, validator_pool: bool) -> (b: Self)
        ensures
            b == (ExtBuilder { validator_pool, ..self }),
    {
        let mut b = self;
        b.validator_pool = validator_pool;
        b
    }

    pub fn nominate(self, nominate: bool) -> (b: Self)
        ensures
            b == (ExtBuilder { nominate, ..self }),
    {
        let mut b = self;
        b.nominate = nominate;
        b
    }

    pub fn validator_count(self, count: u32) -> (b: Self)
        ensures
            b == (ExtBuilder { validator_count: count, ..self }),
    {
        let mut b = self;
        b.validator_count = count;
        b
    }

    pub fn minimum_validator_count(self, count: u32) -> (b: Self)
        ensures
            b == (ExtBuilder { minimum_validator_count: count, ..self }),
    {
        let mut b = self;
        b.minimum_validator_count = count;
        b
    }

    pub fn slash_defer_duration(self, eras: EraIndex) -> (b: Self)
        ensures
            b == (ExtBuilder { slash_defer_duration: eras, ..self }),
    {
        let mut b = self;
        b.slash_defer_duration = eras;
        b
    }

    pub fn fair(self, is_fair: bool) -> (b: Self)
        ensures
            b == (ExtBuilder { fair: is_fair, ..self }),
    {
        let mut b = self;
        b.fair = is_fair;
        b
    }

    pub fn num_validators(self, num_validators: u32) -> (b: Self)
        ensures
            b == (ExtBuilder { num_validators: Some(num_validators), ..self }),
    {
        let mut b = self;
        b.num_validators = Some(num_validators);
        b
    }

    pub fn invulnerables(self, invulnerables: Vec<u64>) -> (b: Self)
        ensures
            b == (ExtBuilder { invulnerables, ..self }),
    {
        let mut b = self;
        b.invulnerables = invulnerables;
        b
    }

    pub fn minimum_bond(self, minimum_bond: u64) -> (b: Self)
        ensures
            b == (ExtBuilder { minimum_bond, ..self }),
    {
        let mut b = self;
        b.minimum_bond = minimum_bond;
        b
    }

    pub fn has_stakers(self, has: bool) -> (b: Self)
        ensures
            b == (ExtBuilder { has_stakers: has, ..self }),
    {
        let mut b = self;
        b.has_stakers = has;
        b
    }

    /// Store this builder's existential deposit and slash defer duration as the runtime's constants.
    pub fn set_associated_consts(&self, consts: &mut AssociatedConsts)
        ensures
            final(consts).existential_deposit == self.existential_deposit,
            final(consts).slash_defer_duration == self.slash_defer_duration,
    {
        consts.existential_deposit = self.existential_deposit;
        consts.slash_defer_duration = self.slash_defer_duration;
    }
}

/// A genesis staker: (stash, controller, staked amount, status).
pub type GenesisStaker = (AccountId, AccountId, Balance, StakerStatus);

/// A genesis staker with the status as its view.
pub open spec fn staker_view(s: GenesisStaker) -> (AccountId, AccountId, Balance, StakerStatusView) {
    (s.0, s.1, s.2, s.3@)
}

/// The genesis configuration of the staking module.
pub struct StakingGenesis {
    pub current_era: EraIndex,
    pub stakers: Vec<GenesisStaker>,
    pub validator_count: u32,
    pub minimum_validator_count: u32,
    pub invulnerables: Vec<AccountId>,
    pub minimum_bond: Balance,
    /// Share of a slash that goes to the reporters, in parts per billion.
    pub slash_reward_fraction: u32,
}

/// The genesis of a full staking test environment.
pub struct MockGenesis {
    /// Free balance of each endowed account.
    pub balances: Vec<(AccountId, Balance)>,
    pub staking: StakingGenesis,
    /// The validators whose session keys are set at genesis; each account is its own key.
    pub session_keys: Vec<AccountId>,
}

/// Balances are scaled up when the existential deposit is above one.
pub open spec fn balance_factor(existential_deposit: u64) -> u64 {
    if existential_deposit > 1 {
        256
    } else {
        1
    }
}

/// The endowed accounts and their balances for a balance factor `f`.
pub open spec fn spec_genesis_balances(f: u64) -> Seq<(AccountId, Balance)> {
    seq![
        (1u64, (10 * f) as u64),
        (2u64, (20 * f) as u64),
        (3u64, (300 * f) as u64),
        (4u64, (400 * f) as u64),
        (10u64, f),
        (11u64, (f * 1000) as u64),
        (20u64, f),
        (21u64, (f * 2000) as u64),
        (30u64, f),
        (31u64, (f * 2000) as u64),
        (40u64, f),
        (41u64, (f * 2000) as u64),
        (100u64, (2000 * f) as u64),
        (101u64, (2000 * f) as u64),
        (999u64, 1_000_000_000_000u64),
    ]
}

/// The validator stashes 11, 21, 31, ... of a test environment with `n` validators.
pub open spec fn spec_validator_ids(n: u32) -> Seq<AccountId> {
    Seq::new(n as nat, |x: int| ((x + 1) * 10 + 1) as AccountId)
}

impl ExtBuilder {
    /// The number of validators: the one set explicitly, or the validator count.
    pub open spec fn spec_num_validators(&self) -> u32 {
        match self.num_validators {
            Some(n) => n,
            None => self.validator_count,
        }
    }

    /// The genesis stakers of this builder, by view.
    pub open spec fn spec_genesis_stakers(&self) -> Seq<(AccountId, AccountId, Balance, StakerStatusView)> {
        let f = balance_factor(self.existential_deposit);
        if !self.has_stakers {
            Seq::empty()
        } else {
            seq![
                (11u64, 10u64, (f * 1000) as u64, StakerStatusView::Validator),
                (21u64, 20u64, if self.fair { 1000u64 } else { 2000u64 }, StakerStatusView::Validator),
                (31u64, 30u64, if self.validator_pool { (f * 1000) as u64 } else { 1u64 }, StakerStatusView::Validator),
                (41u64, 40u64, (f * 1000) as u64, if self.validator_pool { StakerStatusView::Validator } else { StakerStatusView::Idle }),
                (101u64, 100u64, (f * 500) as u64, StakerStatusView::Nominator(if self.nominate { seq![11u64, 21u64] } else { Seq::empty() })),
            ]
        }
    }

    /// The staking genesis holds this builder's parameters and the given stakers.
    pub open spec fn staking_genesis_matches(&self, g: StakingGenesis) -> bool {
        &&& g.current_era == 0
        &&& g.validator_count == self.validator_count
        &&& g.minimum_validator_count == self.minimum_validator_count
        &&& g.invulnerables@ == self.invulnerables@
        &&& g.minimum_bond == self.minimum_bond
        &&& g.slash_reward_fraction == SLASH_REWARD_PERCENT * 10_000_000
    }

    /// The staking genesis with constant parameters only: no accounts,
    /// balances or stakers are set up.
    pub fn simple(self) -> (g: StakingGenesis)
        ensures
            self.staking_genesis_matches(g),
            g.stakers@.len() == 0,
    {
        StakingGenesis {
            current_era: 0,
            stakers: Vec::new(),
            validator_count: self.validator_count,
            minimum_validator_count: self.minimum_validator_count,
            invulnerables: self.invulnerables,
            minimum_bond: self.minimum_bond,
            slash_reward_fraction: perbill_parts_from_percent(SLASH_REWARD_PERCENT),
        }
    }

    /// Set the runtime's constants and describe the full genesis: endowed
    /// balances, stakers, and the validators' session keys.
    pub fn build(self, consts: &mut AssociatedConsts) -> (g: MockGenesis)
        requires
            self.spec_num_validators() * 10 + 1 <= u32::MAX,
        ensures
            final(consts).existential_deposit == self.existential_deposit,
            final(consts).slash_defer_duration == self.slash_defer_duration,
            g.balances@ == spec_genesis_balances(balance_factor(self.existential_deposit)),
            self.staking_genesis_matches(g.staking),
            g.staking.stakers@.map_values(|s: GenesisStaker| staker_view(s)) == self.spec_genesis_stakers(),
            g.session_keys@ == spec_validator_ids(self.spec_num_validators()),
    {
        self.set_associated_consts(consts);
        let balance_factor: u64 = if self.existential_deposit > 1 { 256 } else { 1 };

        let num_validators: u32 = match self.num_validators {
            Some(n) => n,
            None => self.validator_count,
        };
        let mut validators: Vec<AccountId> = Vec::new();
        let mut x: u32 = 0;
        while x < num_validators
            invariant
                x <= num_validators,
                num_validators * 10 + 1 <= u32::MAX,
                validators@ == spec_validator_ids(x),
            decreases num_validators - x,
        {
            validators.push(((x + 1) * 10 + 1) as u64);
            x = x + 1;
            assert(validators@ =~= spec_validator_ids(x));
        }

        let balances: Vec<(AccountId, Balance)> = vec![
            (1, 10 * balance_factor),
            (2, 20 * balance_factor),
            (3, 300 * balance_factor),
            (4, 400 * balance_factor),
            (10, balance_factor),
            (11, balance_factor * 1000),
            (20, balance_factor),
            (21, balance_factor * 2000),
            (30, balance_factor),
            (31, balance_factor * 2000),
            (40, balance_factor),
            (41, balance_factor * 2000),
            (100, 2000 * balance_factor),
            (101, 2000 * balance_factor),
            (999, 1_000_000_000_000),
        ];
        assert(balances@ =~= spec_genesis_balances(balance_factor));

        let mut stakers: Vec<GenesisStaker> = Vec::new();
        if self.has_stakers {
            let stake_21: u64 = if self.fair { 1000 } else { 2000 };
            let stake_31: u64 = if self.validator_pool { balance_factor * 1000 } else { 1 };
            let status_41 = if self.validator_pool {
                StakerStatus::Validator
            } else {
                StakerStatus::Idle
            };
            let nominated: Vec<AccountId> = if self.nominate { vec![11, 21] } else { Vec::new() };
            assert(nominated@ =~= (if self.nominate { seq![11u64, 21u64] } else { Seq::<u64>::empty() }));
            stakers = vec![
                (11, 10, balance_factor * 1000, StakerStatus::Validator),
                (21, 20, stake_21, StakerStatus::Validator),
                (31, 30, stake_31, StakerStatus::Validator),
                (41, 40, balance_factor * 1000, status_41),
                (101, 100, balance_factor * 500, StakerStatus::Nominator(nominated)),
            ];
        }
        assert(stakers@.map_values(|s: GenesisStaker| staker_view(s)) =~= self.spec_genesis_stakers());

        let staking = StakingGenesis {
            current_era: 0,
            stakers,
            validator_count: self.validator_count,
            minimum_validator_count: self.minimum_validator_count,
            invulnerables: self.invulnerables,
            minimum_bond: self.minimum_bond,
            slash_reward_fraction: perbill_parts_from_percent(SLASH_REWARD_PERCENT),
        };
        MockGenesis { balances, staking, session_keys: validators }
    }
}

/// A call made on the test runtime once its storage is built, before any test runs.
#[derive(Clone, Copy, Debug, PartialEq, Eq, Structural)]
pub enum StartCall {
    /// Set the timestamp (in milliseconds).
    SetTimestamp(u64),
    /// Start a new fiscal era of the rewards module.
    NewFiscalEra,
}

/// Once the environment's storage is built from its genesis, the session
/// record starts over with the first session's validators, as the runtime
/// reports them, and nothing disabled. The calls returned are then made in
/// order: every test starts after the timestamp is set to `INIT_TIMESTAMP`,
/// and a new fiscal era of the rewards module is started after it.
pub fn start_environment(session: &mut SessionRecord, validators: Vec<AccountId>) -> (calls: Vec<
    StartCall,
>)
    ensures
        final(session).validators@ == validators@,
        final(session).disabled@ == Set::<AccountId>::empty(),
        final(session).well_formed(),
        calls@ == seq![StartCall::SetTimestamp(INIT_TIMESTAMP), StartCall::NewFiscalEra],
{
    TestSessionHandler::on_new_session(session, validators);
    let calls = vec![StartCall::SetTimestamp(INIT_TIMESTAMP), StartCall::NewFiscalEra];
    assert(calls@ =~= seq![StartCall::SetTimestamp(INIT_TIMESTAMP), StartCall::NewFiscalEra]);
    calls
}

/// Every genesis endowment but the last is a base amount scaled by the
/// balance factor, and the last one (account 999) is a fixed amount that
/// keeps the total payout above zero.
pub proof fn lemma_genesis_balances_scale(ed: u64, i: int)
    requires
        0 <= i < 14,
    ensures
        spec_genesis_balances(balance_factor(ed)).len() == 15,
        spec_genesis_balances(balance_factor(ed))[i].0 == seq![
            1u64, 2, 3, 4, 10, 11, 20, 21, 30, 31, 40, 41, 100, 101,
        ][i],
        spec_genesis_balances(balance_factor(ed))[i].1 == balance_factor(ed) * seq![
            10int, 20, 300, 400, 1, 1000, 1, 2000, 1, 2000, 1, 2000, 2000, 2000,
        ][i],
        spec_genesis_balances(balance_factor(ed))[14] == (999u64, 1_000_000_000_000u64),
{
}

/// With an existential deposit above one, every endowment but account 999's
/// is 256 times what it is with the default existential deposit.
pub proof fn lemma_genesis_balances_factor_ratio(ed: u64, i: int)
    requires
        ed > 1,
        0 <= i < 14,
    ensures
        spec_genesis_balances(balance_factor(ed))[i].0 == spec_genesis_balances(balance_factor(1))[i].0,
        spec_genesis_balances(balance_factor(ed))[i].1 == 256 * spec_genesis_balances(balance_factor(1))[i].1,
        spec_genesis_balances(balance_factor(ed))[14] == spec_genesis_balances(balance_factor(1))[14],
{
}

/// Every genesis staker is controlled by the account just below its stash,
/// the layout the ledger check relies on; the nominator is stash 101 and, when
/// it nominates, it backs the validators 11 and 21.
pub proof fn lemma_genesis_stakers_layout(b: ExtBuilder, i: int)
    requires
        0 <= i < b.spec_genesis_stakers().len(),
    ensures
        b.spec_genesis_stakers()[i].1 + 1 == b.spec_genesis_stakers()[i].0,
        b.spec_genesis_stakers()[i].0 == seq![11u64, 21, 31, 41, 101][i],
        b.spec_genesis_stakers().len() == 5,
        b.nominate ==> b.spec_genesis_stakers()[4].3 == StakerStatusView::Nominator(seq![11u64, 21]),
{
}

/// The endowed balance of `who` at genesis, or zero.
pub open spec fn endowed_balance(balances: Seq<(AccountId, Balance)>, who: AccountId) -> int
    decreases balances.len(),
{
    if balances.len() == 0 {
        0
    } else if balances.last().0 == who {
        balances.last().1 as int
    } else {
        endowed_balance(balances.drop_last(), who)
    }
}

/// Every genesis staker's stash is endowed with at least the amount it stakes.
pub proof fn lemma_stakers_are_funded(b: ExtBuilder, i: int)
    requires
        0 <= i < b.spec_genesis_stakers().len(),
    ensures
        b.spec_genesis_stakers()[i].2 <= endowed_balance(
            spec_genesis_balances(balance_factor(b.existential_deposit)),
            b.spec_genesis_stakers()[i].0,
        ),
{
    let f = balance_factor(b.existential_deposit);
    reveal_with_fuel(endowed_balance, 16);
    assert(f == 1 || f == 256);
}

/// In a fair environment without an increased existential deposit, the
/// validators 11 and 21 are backed by the same stake.
pub proof fn lemma_fair_validators_equal(b: ExtBuilder)
    requires
        b.has_stakers,
        b.fair,
        b.existential_deposit <= 1,
    ensures
        b.spec_genesis_stakers()[0].2 == b.spec_genesis_stakers()[1].2,
{
}

/// The genesis validators are distinct.
pub proof fn lemma_validator_ids_distinct(n: u32, i: int, j: int)
    requires
        0 <= i < n,
        0 <= j < n,
        i != j,
    ensures
        spec_validator_ids(n)[i] != spec_validator_ids(n)[j],
{
}

} // verus!
