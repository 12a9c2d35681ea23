# external_delegate_token_master

A Solana program that keeps lamports in per-authority vaults. A vault sits at
the program derived address of `b"vault"` and its authority, and is bound to an
Ethereum address. Lamports leave a vault only when the central authority signs,
or when the vault's authority signs with a secp256k1 signature that recovers to
the vault's Ethereum address; the vault always keeps its rent-exempt minimum.

- `src/` — the verified library (Verus): the checks on the accounts each
  instruction is handed (signer, writable and executable flags, duplicates,
  owner, derived address, already-created vaults), vault state and its account
  layout, instruction data, the two instructions, and the laws they obey. Calls into
  `solana-address` (program derived addresses), `solana-keccak-hasher` and
  `solana-nostd-secp256k1-recover` go through trusted wrappers in
  `src/crypto.rs`.
- `app/` — the on-chain edge: reads account views and the rent sysvar, runs the
  library, creates the vault account through the system program, and writes
  balances and vault data back.
- `tests/` — the program's scenarios, run against real signatures.
