//! Consistency checks over the staking records: exposures add up, nominators
//! do not over-spend, ledgers account for all of their funds.

use vstd::prelude::*;
use crate::runtime::AccountId;
use crate::store::{
    entries_of, lemma_seq_sum_prefix_le, lemma_seq_sum_take_next, lemma_stake_of_in_entries, others_total, seq_sum, unlocking_total, Exposure,
    ExposureView, IndividualExposure, StakingLedger, StakingStore, UnlockChunk,
};

verus! {

broadcast use vstd::std_specs::hash::group_hash_axioms;

/// Why a consistency check failed.
#[derive(Clone, Copy, Debug, PartialEq, Eq, Structural)]
pub enum MockError {
    /// The account is not a bonded stash.
    NotAStash,
    /// The account expected to control the stash has no ledger.
    MissingLedger,
    /// An exposure's total differs from its own stake plus the nominators' stakes.
    WrongTotalExposure,
    /// A nominator's slashable balance is not above what it has exposed behind the elected validators.
    NominatorOverSpent,
    /// A ledger's total differs from its active balance plus its unlocking chunks.
    InconsistentLedger,
}

/// The result of checking that `acc` is a bonded stash.
pub open spec fn spec_assert_is_stash(store: StakingStore, acc: AccountId) -> Result<(), MockError> {
    if store.bonded@.contains_key(acc) {
        Ok(())
    } else {
        Err(MockError::NotAStash)
    }
}

/// An exposure's total is its own stake plus the nominators' stakes.
pub open spec fn exposure_adds_up(expo: ExposureView) -> bool {
    expo.total == expo.own + others_total(expo.others)
}

/// The result of checking the exposure of `stash`.
pub open spec fn spec_check_exposure(store: StakingStore, stash: AccountId) -> Result<(), MockError> {
    if !store.bonded@.contains_key(stash) {
        Err(MockError::NotAStash)
    } else if exposure_adds_up(store.exposure_of(stash)) {
        Ok(())
    } else {
        Err(MockError::WrongTotalExposure)
    }
}

/// The result of checking that nominator `stash` has not over-spent.
pub open spec fn spec_check_nominator_exposure(store: StakingStore, stash: AccountId) -> Result<
    (),
    MockError,
> {
    if !store.bonded@.contains_key(stash) {
        Err(MockError::NotAStash)
    } else if store.nominated_total(stash) < store.slashable_balance_of(stash) {
        Ok(())
    } else {
        Err(MockError::NominatorOverSpent)
    }
}

/// The result of checking that the ledger controlled by `stash - 1` accounts for all its funds.
pub open spec fn spec_assert_ledger_consistent(store: StakingStore, stash: AccountId) -> Result<
    (),
    MockError,
> {
    if !store.bonded@.contains_key(stash) {
        Err(MockError::NotAStash)
    } else if stash == 0 || !store.ledger@.contains_key((stash - 1) as AccountId) {
        Err(MockError::MissingLedger)
    } else {
        let l = store.ledger@[(stash - 1) as AccountId];
        if l.total == l.active + unlocking_total(l.unlocking@) {
            Ok(())
        } else {
            Err(MockError::InconsistentLedger)
        }
    }
}

/// The nominator check of `stash` depends only on the bonds, the ledgers, the
/// elected set and `stash`'s own entries in the elected validators'
/// exposures: adding or removing exposures of validators that are not
/// elected, or entries of other nominators, does not change its outcome.
pub proof fn lemma_nominator_check_own_entries(s1: StakingStore, s2: StakingStore, stash: AccountId)
    requires
        s1.bonded@ == s2.bonded@,
        s1.ledger@ == s2.ledger@,
        s1.current_elected@ == s2.current_elected@,
        forall|i: int|
            0 <= i < s1.current_elected@.len() ==> entries_of(
                #[trigger] s1.exposure_of(s1.current_elected@[i]).others,
                stash,
            ) == entries_of(s2.exposure_of(s1.current_elected@[i]).others, stash),
    ensures
        spec_check_nominator_exposure(s1, stash) == spec_check_nominator_exposure(s2, stash),
{
    let elected = s1.current_elected@;
    assert forall|i: int| 0 <= i < elected.len() implies #[trigger] s1.nominated_stakes(elected, stash)[i]
        == s2.nominated_stakes(elected, stash)[i] by {
        let v = elected[i];
        lemma_stake_of_in_entries(s1.exposure_of(v).others, stash);
        lemma_stake_of_in_entries(s2.exposure_of(v).others, stash);
        assert(entries_of(s1.exposure_of(v).others, stash) == entries_of(s2.exposure_of(v).others, stash));
    }
    assert(s1.nominated_stakes(elected, stash) =~= s2.nominated_stakes(elected, stash));
}

/// Runs `check` over `accounts` in order and gives the first failure, if any.
pub open spec fn first_failure(
    accounts: Seq<AccountId>,
    check: spec_fn(AccountId) -> Result<(), MockError>,
) -> Result<(), MockError>
    decreases accounts.len(),
{
    if accounts.len() == 0 {
        Ok(())
    } else {
        match check(accounts[0]) {
            Err(e) => Err(e),
            Ok(()) => first_failure(accounts.drop_first(), check),
        }
    }
}

/// Nothing fails exactly when every account passes the check.
pub proof fn lemma_first_failure_ok(
    accounts: Seq<AccountId>,
    check: spec_fn(AccountId) -> Result<(), MockError>,
)
    ensures
        (first_failure(accounts, check) is Ok) <==> (forall|i: int|
            0 <= i < accounts.len() ==> #[trigger] check(accounts[i]) is Ok),
    decreases accounts.len(),
{
    if accounts.len() > 0 {
        lemma_first_failure_ok(accounts.drop_first(), check);
        if first_failure(accounts, check) is Ok {
            assert forall|i: int| 0 <= i < accounts.len() implies #[trigger] check(accounts[i]) is Ok by {
                if i > 0 {
                    assert(accounts[i] == accounts.drop_first()[i - 1]);
                }
            }
        }
        if forall|i: int| 0 <= i < accounts.len() ==> #[trigger] check(accounts[i]) is Ok {
            assert forall|i: int| 0 <= i < accounts.drop_first().len() implies #[trigger] check(
                accounts.drop_first()[i],
            ) is Ok by {
                assert(accounts.drop_first()[i] == accounts[i + 1]);
            }
            assert(check(accounts[0]) is Ok);
        }
    }
}

/// Check that `acc` is a bonded stash.
pub fn assert_is_stash(store: &StakingStore, acc: AccountId) -> (r: Result<(), MockError>)
    ensures
        r == spec_assert_is_stash(*store, acc),
{
    if store.bonded.contains_key(&acc) {
        Ok(())
    } else {
        Err(MockError::NotAStash)
    }
}

/// Whether `expo.total == expo.own + Sum(expo.others)`.
fn exposure_total_matches(expo: &Exposure) -> (b: bool)
    ensures
        b == exposure_adds_up(expo@),
{
    let ghost terms = expo.others@.map_values(|e: IndividualExposure| e.value as int);
    if expo.own > expo.total {
        proof {
            lemma_seq_sum_nonneg(terms);
        }
        return false;
    }
    let mut acc: u64 = expo.own;
    let mut i: usize = 0;
    assert(terms.take(0) =~= Seq::<int>::empty());
    while i < expo.others.len()
        invariant
            i <= expo.others.len(),
            terms == expo.others@.map_values(|e: IndividualExposure| e.value as int),
            acc == expo.own + seq_sum(terms.take(i as int)),
            acc <= expo.total,
        decreases expo.others.len() - i,
    {
        proof {
            lemma_seq_sum_take_next(terms, i as int);
        }
        let v = expo.others[i].value;
        if acc as u128 + v as u128 > expo.total as u128 {
            proof {
                lemma_seq_sum_prefix_le(terms, i + 1);
            }
            return false;
        }
        acc = acc + v;
        i = i + 1;
    }
    assert(terms.take(i as int) =~= terms);
    acc == expo.total
}

/// Check for a selected validator: `expo.total = Sum(expo.others) + expo.own`.
pub fn check_exposure(store: &StakingStore, stash: AccountId) -> (r: Result<(), MockError>)
    ensures
        r == spec_check_exposure(*store, stash),
{
    if !store.bonded.contains_key(&stash) {
        return Err(MockError::NotAStash);
    }
    match store.stakers.get(&stash) {
        Some(expo) => {
            if exposure_total_matches(expo) {
                Ok(())
            } else {
                Err(MockError::WrongTotalExposure)
            }
        },
        None => {
            assert(others_total(Seq::<IndividualExposure>::empty()) == 0) by {
                assert(Seq::<IndividualExposure>::empty().map_values(
                    |e: IndividualExposure| e.value as int,
                ) =~= Seq::<int>::empty());
            }
            Ok(())
        },
    }
}

/// Check the exposure of every elected validator, in order; the first failure is returned.
pub fn check_exposure_all(store: &StakingStore) -> (r: Result<(), MockError>)
    ensures
        r == first_failure(store.current_elected@, |a: AccountId| spec_check_exposure(*store, a)),
        r is Ok <==> forall|i: int|
            0 <= i < store.current_elected@.len() ==> #[trigger] spec_check_exposure(
                *store,
                store.current_elected@[i],
            ) is Ok,
{

    let ghost check = |a: AccountId| spec_check_exposure(*store, a);
    let ghost elected = store.current_elected@;
    let mut i: usize = 0;
    assert(elected.skip(0) =~= elected);
    while i < store.current_elected.len()
        invariant
            i <= elected.len(),
            elected == store.current_elected@,
            check == (|a: AccountId| spec_check_exposure(*store, a)),
            first_failure(elected, check) == first_failure(elected.skip(i as int), check),
        decreases elected.len() - i,
    {
        assert(elected.skip(i as int).drop_first() =~= elected.skip(i + 1));
        assert(elected.skip(i as int)[0] == elected[i as int]);
        let r = check_exposure(store, store.current_elected[i]);
        if r.is_err() {
            proof {
                assert(!(spec_check_exposure(*store, elected[i as int]) is Ok));
            }
            return r;
        }
        i = i + 1;
    }
    assert(elected.skip(i as int).len() == 0);
    proof {
        lemma_first_failure_ok(elected, check);
        assert forall|k: int| 0 <= k < elected.len() implies #[trigger] spec_check_exposure(*store, elected[k]) is Ok by {
            assert(check(elected[k]) is Ok);
        }
    }
    Ok(())
}

/// The stake that can be slashed from `stash`.
fn slashable_balance(store: &StakingStore, stash: AccountId) -> (b: u64)
    ensures
        b == store.slashable_balance_of(stash),
{
    match store.bonded.get(&stash) {
        Some(ctrl) => match store.ledger.get(ctrl) {
            Some(l) => l.active,
            None => 0,
        },
        None => 0,
    }
}

/// The terms of a sum are all non-negative, so the sum is too.
proof fn lemma_seq_sum_nonneg(s: Seq<int>)
    requires
        forall|k: int| 0 <= k < s.len() ==> s[k] >= 0,
    ensures
        seq_sum(s) >= 0,
{
    lemma_seq_sum_prefix_le(s, 0);
    assert(s.take(0) =~= Seq::<int>::empty());
}

/// Check that a nominator's slashable balance is above the sum of what it has
/// exposed behind the elected validators (it might not use all of its
/// balance, but it MUST NOT over-spend).
pub fn check_nominator_exposure(store: &StakingStore, stash: AccountId) -> (r: Result<
    (),
    MockError,
>)
    ensures
        r == spec_check_nominator_exposure(*store, stash),
{
    if !store.bonded.contains_key(&stash) {
        return Err(MockError::NotAStash);
    }
    let stake = slashable_balance(store, stash);
    let ghost outer = store.nominated_stakes(store.current_elected@, stash);
    let mut sum: u64 = 0;
    let mut i: usize = 0;
    while i < store.current_elected.len()
        invariant
            i <= store.current_elected@.len(),
            outer == store.nominated_stakes(store.current_elected@, stash),
            stake == store.slashable_balance_of(stash),
            store.bonded@.contains_key(stash),
            sum == seq_sum(outer.take(i as int)),
            sum <= stake,
        decreases store.current_elected@.len() - i,
    {
        let v = store.current_elected[i];
        proof {
            lemma_seq_sum_take_next(outer, i as int);
            assert forall|k: int| 0 <= k < outer.len() implies outer[k] >= 0 by {
                let others = store.exposure_of(store.current_elected@[k]).others;
                lemma_seq_sum_nonneg(
                    others.map_values(
                        |e: IndividualExposure| if e.who == stash { e.value as int } else { 0 },
                    ),
                );
            }
        }
        match store.stakers.get(&v) {
            Some(expo) => {
                let ghost inner = expo.others@.map_values(
                    |e: IndividualExposure| if e.who == stash { e.value as int } else { 0 },
                );
                let ghost before = sum as int;
                assert(outer[i as int] == seq_sum(inner));
                proof {
                    lemma_seq_sum_prefix_le(outer, i + 1);
                }
                let mut j: usize = 0;
                while j < expo.others.len()
                    invariant
                        j <= expo.others@.len(),
                        inner == expo.others@.map_values(
                            |e: IndividualExposure| if e.who == stash { e.value as int } else { 0 },
                        ),
                        sum == before + seq_sum(inner.take(j as int)),
                        sum <= stake,
                        before + seq_sum(inner) <= seq_sum(outer),
                        outer == store.nominated_stakes(store.current_elected@, stash),
                        stake == store.slashable_balance_of(stash),
                        store.bonded@.contains_key(stash),
                    decreases expo.others@.len() - j,
                {
                    proof {
                        lemma_seq_sum_take_next(inner, j as int);
                    }
                    let e = expo.others[j];
                    if e.who == stash {
                        if sum as u128 + e.value as u128 > stake as u128 {
                            proof {
                                assert forall|k: int| 0 <= k < inner.len() implies inner[k] >= 0 by {
                                    let x = expo.others@[k];
                                    assert(inner[k] == (if x.who == stash { x.value as int } else { 0 }));
                                }
                                lemma_seq_sum_prefix_le(inner, j + 1);
                                assert(inner[j as int] == e.value);
                            }
                            return Err(MockError::NominatorOverSpent);
                        }
                        sum = sum + e.value;
                    }
                    j = j + 1;
                }
                assert(inner.take(j as int) =~= inner);
            },
            None => {
                assert(outer[i as int] == 0) by {
                    assert(Seq::<IndividualExposure>::empty().map_values(
                        |e: IndividualExposure| if e.who == stash { e.value as int } else { 0 },
                    ) =~= Seq::<int>::empty());
                }
            },
        }
        i = i + 1;
    }
    assert(outer.take(i as int) =~= outer);
    if sum < stake {
        Ok(())
    } else {
        Err(MockError::NominatorOverSpent)
    }
}

/// Check every nominator, in order; the first failure is returned.
pub fn check_nominator_all(store: &StakingStore) -> (r: Result<(), MockError>)
    ensures
        r == first_failure(store.nominators@, |a: AccountId| spec_check_nominator_exposure(*store, a)),
        r is Ok <==> forall|i: int|
            0 <= i < store.nominators@.len() ==> #[trigger] spec_check_nominator_exposure(
                *store,
                store.nominators@[i],
            ) is Ok,
{

    let ghost check = |a: AccountId| spec_check_nominator_exposure(*store, a);
    let ghost nominators = store.nominators@;
    let mut i: usize = 0;
    assert(nominators.skip(0) =~= nominators);
    while i < store.nominators.len()
        invariant
            i <= nominators.len(),
            nominators == store.nominators@,
            check == (|a: AccountId| spec_check_nominator_exposure(*store, a)),
            first_failure(nominators, check) == first_failure(nominators.skip(i as int), check),
        decreases nominators.len() - i,
    {
        assert(nominators.skip(i as int).drop_first() =~= nominators.skip(i + 1));
        assert(nominators.skip(i as int)[0] == nominators[i as int]);
        let r = check_nominator_exposure(store, store.nominators[i]);
        if r.is_err() {
            proof {
                assert(!(spec_check_nominator_exposure(*store, nominators[i as int]) is Ok));
            }
            return r;
        }
        i = i + 1;
    }
    assert(nominators.skip(i as int).len() == 0);
    proof {
        lemma_first_failure_ok(nominators, check);
        assert forall|k: int| 0 <= k < nominators.len() implies #[trigger] spec_check_nominator_exposure(*store, nominators[k]) is Ok by {
            assert(check(nominators[k]) is Ok);
        }
    }
    Ok(())
}

/// Whether `total == active + Sum(unlocking)`.
fn ledger_total_matches(l: &StakingLedger) -> (b: bool)
    ensures
        b == (l.total == l.active + unlocking_total(l.unlocking@)),
{
    let ghost terms = l.unlocking@.map_values(|c: UnlockChunk| c.value as int);
    if l.active > l.total {
        proof {
            lemma_seq_sum_nonneg(terms);
        }
        return false;
    }
    let mut acc: u64 = l.active;
    let mut i: usize = 0;
    assert(terms.take(0) =~= Seq::<int>::empty());
    while i < l.unlocking.len()
        invariant
            i <= l.unlocking.len(),
            terms == l.unlocking@.map_values(|c: UnlockChunk| c.value as int),
            acc == l.active + seq_sum(terms.take(i as int)),
            acc <= l.total,
        decreases l.unlocking.len() - i,
    {
        proof {
            lemma_seq_sum_take_next(terms, i as int);
        }
        let v = l.unlocking[i].value;
        if acc as u128 + v as u128 > l.total as u128 {
            proof {
                lemma_seq_sum_prefix_le(terms, i + 1);
            }
            return false;
        }
        acc = acc + v;
        i = i + 1;
    }
    assert(terms.take(i as int) =~= terms);
    acc == l.total
}

/// Check that the ledger of `stash`, kept under its controller `stash - 1`,
/// accounts for all its funds: `total = active + Sum(unlocking)`.
pub fn assert_ledger_consistent(store: &StakingStore, stash: AccountId) -> (r: Result<
    (),
    MockError,
>)
    ensures
        r == spec_assert_ledger_consistent(*store, stash),
{
    if !store.bonded.contains_key(&stash) {
        return Err(MockError::NotAStash);
    }
    if stash == 0 {
        return Err(MockError::MissingLedger);
    }
    match store.ledger.get(&(stash - 1)) {
        Some(l) => {
            if ledger_total_matches(l) {
                Ok(())
            } else {
                Err(MockError::InconsistentLedger)
            }
        },
        None => Err(MockError::MissingLedger),
    }
}

/// Appending an entry to a nominator list adds its value to the list's total.
proof fn lemma_others_total_push(others: Seq<IndividualExposure>, e: IndividualExposure)
    ensures
        others_total(others.push(e)) == others_total(others) + e.value,
{
    assert(others.push(e).map_values(|x: IndividualExposure| x.value as int).drop_last()
        =~= others.map_values(|x: IndividualExposure| x.value as int));
}

/// Appending a chunk to a ledger's unlocking list adds its value to the unlocking total.
proof fn lemma_unlocking_total_push(chunks: Seq<UnlockChunk>, c: UnlockChunk)
    ensures
        unlocking_total(chunks.push(c)) == unlocking_total(chunks) + c.value,
{
    assert(chunks.push(c).map_values(|x: UnlockChunk| x.value as int).drop_last()
        =~= chunks.map_values(|x: UnlockChunk| x.value as int));
}

/// A validator exposed by no nominator passes the exposure check exactly
/// when its total is its own stake.
pub proof fn lemma_check_exposure_without_nominators(store: StakingStore, stash: AccountId)
    requires
        store.bonded@.contains_key(stash),
        store.exposure_of(stash).others.len() == 0,
    ensures
        (spec_check_exposure(store, stash) is Ok) <==> store.exposure_of(stash).total
            == store.exposure_of(stash).own,
        !(spec_check_exposure(store, stash) is Ok) ==> spec_check_exposure(store, stash) == Err::<
            (),
            MockError,
        >(MockError::WrongTotalExposure),
{
    assert(store.exposure_of(stash).others.map_values(|x: IndividualExposure| x.value as int)
        =~= Seq::<int>::empty());
}

/// Every nominator counts in the exposure check: with two nominators the check
/// passes exactly when the total is the own stake plus both exposed values.
pub proof fn lemma_check_exposure_two_nominators(store: StakingStore, stash: AccountId)
    requires
        store.bonded@.contains_key(stash),
        store.exposure_of(stash).others.len() == 2,
    ensures
        (spec_check_exposure(store, stash) is Ok) <==> store.exposure_of(stash).total
            == store.exposure_of(stash).own + store.exposure_of(stash).others[0].value
            + store.exposure_of(stash).others[1].value,
{
    let others = store.exposure_of(stash).others;
    assert(others == seq![others[0]].push(others[1]));
    assert(seq![others[0]] == Seq::<IndividualExposure>::empty().push(others[0]));
    assert(Seq::<IndividualExposure>::empty().map_values(|x: IndividualExposure| x.value as int)
        =~= Seq::<int>::empty());
    lemma_others_total_push(Seq::empty(), others[0]);
    lemma_others_total_push(seq![others[0]], others[1]);
}

/// Adding a nominator's entry to a validator's exposure and raising the total
/// by its value leaves the exposure check's outcome unchanged.
pub proof fn lemma_check_exposure_add_nominator(
    s1: StakingStore,
    s2: StakingStore,
    stash: AccountId,
    e: IndividualExposure,
)
    requires
        s1.bonded@ == s2.bonded@,
        s2.exposure_of(stash).own == s1.exposure_of(stash).own,
        s2.exposure_of(stash).others == s1.exposure_of(stash).others.push(e),
        s2.exposure_of(stash).total == s1.exposure_of(stash).total + e.value,
    ensures
        spec_check_exposure(s1, stash) == spec_check_exposure(s2, stash),
{
    lemma_others_total_push(s1.exposure_of(stash).others, e);
}

/// The nominator check measures the exposed sum against the active balance of
/// the nominator's ledger: it passes exactly when the ledger exists and the sum
/// is below that active balance.
pub proof fn lemma_nominator_check_against_active(store: StakingStore, stash: AccountId)
    requires
        store.bonded@.contains_key(stash),
    ensures
        (spec_check_nominator_exposure(store, stash) is Ok) <==> ({
            let ctrl = store.bonded@[stash];
            &&& store.ledger@.contains_key(ctrl)
            &&& store.nominated_total(stash) < store.ledger@[ctrl].active
        }),
{
    let outer = store.nominated_stakes(store.current_elected@, stash);
    assert forall|k: int| 0 <= k < outer.len() implies outer[k] >= 0 by {
        let others = store.exposure_of(store.current_elected@[k]).others;
        lemma_seq_sum_nonneg(
            others.map_values(|e: IndividualExposure| if e.who == stash { e.value as int } else { 0 }),
        );
    }
    lemma_seq_sum_nonneg(outer);
}

/// Funds that are unlocking do not count towards what a nominator can be
/// slashed for: changing the total and the unlocking chunks of its ledger,
/// with the active balance kept, leaves the nominator check unchanged.
pub proof fn lemma_nominator_check_ignores_unlocking(
    s1: StakingStore,
    s2: StakingStore,
    stash: AccountId,
    l2: StakingLedger,
)
    requires
        s1.bonded@ == s2.bonded@,
        s1.stakers@ == s2.stakers@,
        s1.current_elected@ == s2.current_elected@,
        s1.bonded@.contains_key(stash),
        s1.ledger@.contains_key(s1.bonded@[stash]),
        l2.active == s1.ledger@[s1.bonded@[stash]].active,
        s2.ledger@ == s1.ledger@.insert(s1.bonded@[stash], l2),
    ensures
        spec_check_nominator_exposure(s1, stash) == spec_check_nominator_exposure(s2, stash),
{
    assert(s1.nominated_stakes(s1.current_elected@, stash) =~= s2.nominated_stakes(
        s2.current_elected@,
        stash,
    ));
}

/// A ledger without unlocking chunks is consistent exactly when its total is its active balance.
pub proof fn lemma_ledger_without_unlocking(store: StakingStore, stash: AccountId)
    requires
        store.bonded@.contains_key(stash),
        stash != 0,
        store.ledger@.contains_key((stash - 1) as AccountId),
        store.ledger@[(stash - 1) as AccountId].unlocking@.len() == 0,
    ensures
        (spec_assert_ledger_consistent(store, stash) is Ok) <==> store.ledger@[(stash
            - 1) as AccountId].total == store.ledger@[(stash - 1) as AccountId].active,
        !(spec_assert_ledger_consistent(store, stash) is Ok) ==> spec_assert_ledger_consistent(
            store,
            stash,
        ) == Err::<(), MockError>(MockError::InconsistentLedger),
{
    assert(store.ledger@[(stash - 1) as AccountId].unlocking@.map_values(
        |x: UnlockChunk| x.value as int,
    ) =~= Seq::<int>::empty());
}

/// Adding an unlocking chunk to a ledger and raising its total by the chunk's
/// value leaves the ledger check's outcome unchanged.
pub proof fn lemma_ledger_add_unlocking(
    s1: StakingStore,
    s2: StakingStore,
    stash: AccountId,
    c: UnlockChunk,
)
    requires
        s1.bonded@ == s2.bonded@,
        stash != 0,
        s1.ledger@.contains_key((stash - 1) as AccountId),
        s2.ledger@.contains_key((stash - 1) as AccountId),
        s2.ledger@[(stash - 1) as AccountId].active == s1.ledger@[(stash - 1) as AccountId].active,
        s2.ledger@[(stash - 1) as AccountId].unlocking@ == s1.ledger@[(stash
            - 1) as AccountId].unlocking@.push(c),
        s2.ledger@[(stash - 1) as AccountId].total == s1.ledger@[(stash - 1) as AccountId].total
            + c.value,
    ensures
        spec_assert_ledger_consistent(s1, stash) == spec_assert_ledger_consistent(s2, stash),
{
    lemma_unlocking_total_push(s1.ledger@[(stash - 1) as AccountId].unlocking@, c);
}

} // verus!
