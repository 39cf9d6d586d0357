# capstone_project

A token vault for a Solana program, with its rules proved in Verus, and a
small number-guessing game.

- `src/` is the verified library. Each instruction of the vault is a
  function from the vault's state and the instruction's arguments to the
  next state and the record the program announces; its contract states the
  outcome exactly through a spec function over `VaultView`
  (`src/instructions/`). `src/laws.rs` proves what holds across
  instructions: refused requests change nothing, the multi-signature
  configuration and the token registry stay well formed, transactions keep
  their approvals and executed marks, fees are accounted for, and a
  deposit can be withdrawn again. `src/pda.rs` derives program addresses
  through solana-program; `src/guessing.rs` holds the game's decisions.
- `app/` is the Anchor program around the library (accounts, cross-program
  calls, events, the clock) and the game's input/output loop.
- `tests/` exercises the library on concrete values.
