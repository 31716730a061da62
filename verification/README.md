# treasury-manager

A single-admin treasury contract for one token, verified with Verus.

- `src/types.rs`: the bookkeeping (`TreasuryState`), the storage keys,
  the refusals and the transfer descriptions an operation hands back.
- `src/contract.rs`: `TreasuryManagerContract`, the contract's instance
  storage as plain values, its model, the spec of each operation, and the
  operations themselves with contracts that pin the outcome.
- `src/laws.rs`: properties that span operations (the storage invariant,
  initialize-once, monotone totals, withdrawals bounded by the on-chain
  balance, the two-step admin handover).
- `app/lib.rs`: the Soroban contract around the library: ledger storage,
  authorization, token balance queries and transfers, events.
