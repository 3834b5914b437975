//! Verified core of a staking test environment and of NFT field types: the
//! builder and the genesis it describes, session bookkeeping, consistency
//! checks over staking records, and era/session arithmetic, all stated over
//! plain values.

pub mod nft;
pub mod runtime;
pub mod store;
pub mod checks;
pub mod session;
pub mod eras;
pub mod ext_builder;
pub mod setup;
