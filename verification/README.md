# subscriptions

The decision logic of a Solana token-delegation program (fixed, recurring and
up-to delegations, merchant plans and subscriptions), written in Verus and
proved against its contracts.

- `src/` is the verified library. Every instruction is a function from the
  accounts and payload it receives (as plain values: `AccountInfo`, byte
  slices, the clock) to what it decides: the error it refuses with, or the
  records to write, the account that receives closed rent, the bump that
  signs a cross-program call, the event to emit.
  - `state/`: account layouts, their byte encodings, loaders and
    round-trip laws.
  - `instructions/`: one module per instruction, with its verdict as a spec
    function, the deciding `process` function, and the laws the instruction
    keeps.
  - `validation.rs`: allowance and billing-period arithmetic of transfers.
  - `transfer_hook.rs`: the Token-2022 TLV reader for transfer hooks, and
    the routing of a delegated transfer through a mint's active hook
    (`TransferChecked` with the forwarded hook accounts).
  - `events.rs`: event encoding, decoding and the round-trip law.
  - `pda.rs`: program-derived addresses, computed by `solana-address`.
  - `token_interface.rs`: checks that a token program is SPL Token or
    Token-2022, that mints and token accounts belong to it, and that a token
    account is a wallet's associated one.
- `app/` is the unverified on-chain glue: it routes instructions by their
  first byte, copies the runtime's accounts into the library's types, calls
  the library, and performs the account creation, writes, closes, token
  transfers, approvals and revocations the library decides on. It does not
  emit the events the library builds.
- `tests/` runs the library on concrete values.
