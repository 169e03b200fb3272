# banana_runtime

The rules of a Substrate-based runtime, verified with Verus.

- `src/proxy.rs`: the proxy kinds, the runtime calls each kind may dispatch,
  and the covering relation between kinds.
- `src/fees.rs`: the 80/20 split of transaction fees and tips between the
  treasury and the block author.
- `src/transaction.rs`: the mortal era and other parameters of the
  transactions the runtime signs for itself (through `sp_runtime`).
- `src/weights.rs`: block weight limits derived by `Perbill` ratios
  (through `sp_arithmetic`).
- `src/time.rs`: block time and the durations configured in blocks.
- `src/evm.rs`, `src/upgrade.rs`: the EVM gas price, the Ethereum address of
  the block author, and the weight of the runtime upgrade.
- `app/lib.rs`: the SCALE-encoded proxy kind and conversions to the types of
  `sp_runtime` and `primitive_types`.
