# secret_brawl

The game logic of SecretBrawl, a two-player brawl on Secret Network, as a
Verus library.

- `src/arena/state.rs`: an arena's stored state, its view and its invariant.
- `src/arena/combat.rs`: the combat table, damage by power level, and their
  properties.
- `src/arena/wellformed.rs`: `State::is_wf`, the invariant checked at run time.
- `src/arena/contract.rs`, `join.rs`, `round.rs`: creating an arena, joining
  it, playing rounds, routing deposits and messages, showing the state.
- `src/arena/randomness.rs`: the power level drawn for each action (SHA-256
  and ChaCha behind trusted wrappers).
- `src/factory/`: the factory that creates arenas and registers them.
- `app/`: the contracts' storage, message encodings and calls to other
  contracts around the library.
