# credit_scoring

Backend of a credit-scoring oracle: exchange data proven over zkTLS arrives
through a webhook, is merged into one payload per wallet, scored, and the
score is published to a Solana program.

- `src/` is the verified library (Verus): the data types, the scorers and the
  scoring engine, payload merging, webhook share checks (signature hex,
  EIP-191 signer recovery, allowlist), proof hashing, the preparation of the
  on-chain `UpdateCreditScore` instruction, the in-memory proof and score
  stores, and the settings with their defaults.
  Calls into `sha2`, `hex`, `chrono`, `alloy-primitives`, `alloy-signer` and
  `solana-pubkey` go through small trusted wrappers whose contracts are
  documented where they stand.
- `app/` is the HTTP service around it: `axum` routes, JSON (de)serialisation,
  the allowlist download, the locks around the stores, and sending the
  Solana transaction.
- `tests/` exercises the library on concrete values.

Monetary amounts are fixed-point integers in the library (units of 1e-8);
the service converts JSON numbers to and from them, rounding to the nearest unit.

`app/` builds the Solana transaction with `anchor-client` and `anchor-lang`,
and `declare_program!(core_router)` reads the program's IDL. Those two crates
are not in `Cargo.toml`: with them the dependency set is expected to outgrow what this
build allows, and the IDL file is not part of the repository. So `app/` does
not build here; the library and its tests do not depend on them.
