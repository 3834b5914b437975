//! Account and balance types, the runtime parameters of the staking test
//! environment, and the small runtime handlers that compute on plain values.

use vstd::prelude::*;
use sp_runtime::traits::SaturatedConversion;
use sp_runtime::PerThing;

verus! {

pub type AccountId = u64;

pub type BlockNumber = u64;

pub type Balance = u64;

/// Counter for the number of eras that have passed.
pub type EraIndex = u32;

/// Index of a session.
pub type SessionIndex = u32;

/// Timestamp (in milliseconds) at which every test environment starts.
pub const INIT_TIMESTAMP: u64 = 30_000;

/// Milliseconds the timestamp moves forward at each session rotation.
pub const SESSION_ROTATION_TIME: u64 = 1000;

pub const BLOCK_HASH_COUNT: u64 = 250;

pub const MAXIMUM_BLOCK_WEIGHT: u64 = 1024;

pub const MAXIMUM_BLOCK_LENGTH: u32 = 2048;

pub const CREATION_FEE: u64 = 0;

pub const PERIOD: BlockNumber = 1;

pub const OFFSET: BlockNumber = 0;

pub const UNCLE_GENERATIONS: u64 = 0;

/// Share of validators (in percent) that may be disabled before a new era is forced.
pub const DISABLED_VALIDATORS_THRESHOLD_PERCENT: u32 = 25;

pub const MINIMUM_PERIOD: u64 = 5;

pub const HISTORICAL_PAYOUT_ERAS: u16 = 7;

pub const PAYOUT_SPLIT_THRESHOLD: u32 = 10;

pub const FISCAL_ERA_LENGTH: u32 = 5;

/// Identifier of the treasury module account.
pub const TREASURY_MODULE_ID: [u8; 8] = [112, 121, 47, 116, 114, 115, 114, 121];

pub const SESSIONS_PER_ERA: SessionIndex = 3;

pub const BONDING_DURATION: EraIndex = 3;

pub const BLOCKS_PER_ERA: BlockNumber = 3;

/// Share (in percent) of a slash that goes to the reporters, as set up at genesis.
pub const SLASH_REWARD_PERCENT: u32 = 10;

/// The author of every block.
pub const BLOCK_AUTHOR: AccountId = 11;

/// The runtime that the staking test environment configures.
#[derive(Clone, PartialEq, Eq, Debug)]
pub struct Test;

/// `x` as a `u64`, or `u64::MAX` where it does not fit.
pub open spec fn saturated_u64(x: u128) -> u64 {
    if x > u64::MAX {
        u64::MAX
    } else {
        x as u64
    }
}

/// `sp_runtime`'s `SaturatedConversion::saturated_into` from `u128` to `u64`.
/// In sp-arithmetic it forwards to `UniqueSaturatedInto::unique_saturated_into`,
/// which is `self.try_into().unwrap_or_else(|_| Bounded::max_value())`: the
/// value itself where it fits in a `u64`, and `u64::MAX` where it does not.
#[verifier::external_body]
fn saturated_u128_into_u64(x: u128) -> (r: u64)
    ensures
        r == saturated_u64(x),
{
    x.saturated_into()
}

/// The parts per billion of `sp_runtime::Perbill::from_percent(x)`, read back
/// with `PerThing::deconstruct`. sp-arithmetic's inherent `from_percent` is
/// `min(x, 100) * 1_000_000_000 / 100`, and `deconstruct` returns the parts.
#[verifier::external_body]
pub(crate) fn perbill_parts_from_percent(x: u32) -> (parts: u32)
    ensures
        parts == (if x > 100 { 100 } else { x }) * 10_000_000,
{
    sp_runtime::Perbill::from_percent(x).deconstruct()
}

/// Both conversions agree on the amounts that fit in a `u64`.
pub proof fn lemma_conversions_agree(x: u64)
    ensures
        saturated_u64(x as u128) == x,
{
}

/// Saturation keeps the order of amounts.
pub proof fn lemma_saturation_monotone(x: u128, y: u128)
    requires
        x <= y,
    ensures
        saturated_u64(x) <= saturated_u64(y),
{
}

/// Exposes how u64 currency is represented as a u64 vote weight.
pub struct CurrencyToVoteHandler;

impl CurrencyToVoteHandler {
    /// A `u64` balance is its own vote weight.
    pub fn convert(x: u64) -> (r: u64)
        ensures
            r == x,
    {
        x
    }

    /// A `u128` amount is converted to a `u64`, saturating at `u64::MAX`.
    pub fn convert_u128(x: u128) -> (r: u64)
        ensures
            r == saturated_u64(x),
    {
        saturated_u128_into_u64(x)
    }
}

/// Author of every block is always 11.
pub struct Author11;

impl Author11 {
    /// Whatever the block's digests, its author is account 11.
    pub fn find_author() -> (author: Option<AccountId>)
        ensures
            author == Some(BLOCK_AUTHOR),
    {
        Some(BLOCK_AUTHOR)
    }
}

} // verus!
