# tip_distribution

The rules of a tip distribution program on Solana, written and proved in Verus.

- `src/` is the verified library: `administration`, `uploads`, `claims` and `closing` hold the
  instructions, `laws` what holds of them together; `state`, `accounts`, `events`, `error`,
  `pubkey` and `policy` hold what they work on; `merkle_leaf` hashes a claim with Keccak-256.
- `tests/` runs the library.
- `app/` are the handlers that let an Anchor program use it.

An instruction takes its accounts, its arguments, the clock where it reads it, the embedding
program's policy and a list to which it appends its effects. The policy decides whether settings
and accounts are valid, when an account has expired and whether a merkle proof holds.
