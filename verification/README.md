# ethereum_consensus (Capella block processing)

A verified library for the Capella block-processing steps of the beacon chain:

- `src/types.rs`: the beacon state, validators, withdrawals, execution payloads and
  headers as the steps read them, and the error type.
- `src/helpers.rs`: epoch, randao-mix, timestamp and balance helpers, and the
  withdrawability predicates.
- `src/ssz.rs`: the calls into `ssz_rs` that compute hash tree roots.
- `src/withdrawals.rs`: the withdrawals sweep (`get_expected_withdrawals`), its
  application to the state (`process_withdrawals`), and the laws they obey.
- `src/execution_payload.rs`: the execution-payload checks, the engine hand-off and
  the recording of the payload header (`process_execution_payload`).
- `src/operations.rs`: the deposit-count check and the order of operations
  (`process_operations`), and the order of a block's steps (`process_block`, and
  `process_block_after_header` for every step after the header); the per-operation
  transitions are supplied through the `BlockOperations` trait.

`tests/` runs the library on concrete states, and checks the hash tree roots against
a SHA-256 computation of their own.
