# axionvera

Verified core of the Axionvera protocol contracts, written in Verus.

- `src/resources.rs`: the resource lifecycle state machine (transitions,
  terminal state, state and error codes), the action each transition
  announces and the payloads of the lifecycle events, with the laws of the
  lifecycle proved as proof functions.
- `src/interfaces.rs`: treasury, fee and orchestration error codes, the fee
  schedule and the fee and execution records shared by the contracts.
- `src/storage.rs`: storage schema version, entry lifetimes, defaults for
  missing entries and the accumulation of fee totals with overflow checks.
- `src/token.rs`: a token ledger with minting and transfers.
- `app/`: the Soroban side: contract-typed copies of the library's types,
  event publication and ledger storage access, which call the library for
  every decision.
- `tests/`: tests of the library on concrete values.
