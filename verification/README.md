# crml

Verified (Verus) core of a staking test environment and of NFT field types.

- `src/nft.rs` — NFT field types, their type ids and default values.
- `src/runtime.rs` — account/balance types, runtime parameters, currency-to-vote conversion, block author.
- `src/store.rs` — the staking records the helpers read (ledgers, exposures, bonded eras) as plain values.
- `src/checks.rs` — consistency checks: exposures add up, nominators do not over-spend, ledgers account for their funds.
- `src/session.rs` — session bookkeeping (validators, disabled set) and the session/era clock.
- `src/eras.rs` — rewarding the elected validators; the session at which an offence is slashed.
- `src/ext_builder.rs` — the environment builder and the genesis it describes.
- `src/setup.rs` — the runtime calls that bond validators and nominators.
- `app/` — SCALE codec for NFT fields, runtime-trait implementations over per-thread state, and panicking assertions.
