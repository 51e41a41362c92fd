# wild_faucet

The rules of a token faucet program, verified with Verus.

A faucet is kept, per mint and per authority, in a faucet state account at a
program derived address. Its authority funds a token pool; anyone can then
request an airdrop, paying lamports to the faucet's treasury at a price per
whole token; the authority can take the pool back or close the faucet.

- `src/` is the verified library: the state (`state.rs`), addresses and
  program derived address seeds (`key.rs`, `address.rs`), the errors
  (`error.rs`), the declared account constraints (`constraints.rs`), each
  instruction's checks and steps (`instructions/`), the instructions as a
  client invokes them (`faucet.rs`), and the properties that hold across them
  (`laws.rs`).
- `app/` is the on-chain program around it: it reads the accounts, asks the
  library what to do, performs the cross-program calls the library describes,
  hands their outcomes back, and writes the new state.
- `tests/` runs the library on concrete accounts, with addresses derived by
  the runtime's own functions.
