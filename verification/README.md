# soroban_playground

Verified models of a collection of Soroban smart contracts, and of the
computing core of a database backup tool, written in Verus.

* `src/` — the library.  Each contract is a module holding its storage as a
  struct and its entry points as methods with `requires`/`ensures`
  contracts; the host's ledger time and the caller's address are explicit
  arguments, and events and authorisation are left to the host (the
  atomic swaps return the token transfers the host is to make).  Laws
  that relate several calls are public proof functions (`lemma_*`).
  `backup` holds the backup tool's logic; its calls into `aes-gcm`, `sha2`,
  `hex` and `chrono` go through small trusted wrappers whose contracts
  are stated at the top of `backup.rs` and `hashing.rs`.
  `zk_verifier` is a Groth16 verifier over BN254: its curve arithmetic
  (the on-curve test, addition, multi-scalar multiplication, negation and
  the pairing check) is done by the Soroban host through trusted wrappers
  in `zk_verifier.rs`, and `bn254` states, as mathematics, which encodings
  the host reads and which G2 points it accepts.
* `tests/` — scenarios for every module, run against the compiled library.
* `app/` — the backup tool's command line: argument and environment
  handling, file and process I/O around the library.
