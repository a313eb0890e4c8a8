# Authorization registry

The core of a registry of authorization policies, written in Verus: what its
administration endpoints decide, the steps that each request takes, the audit
entries that edits leave behind, how the configuration is completed, and how the
routes are laid out.

- `src/` is the verified library. A request is an `Exchange`: it names the next
  action (validate a party, begin a transaction, look up, call the store, log,
  commit, respond) and is resumed with what came of it. `model.rs` says in mathematics
  which action follows which event, `exchange.rs` computes it, and `laws.rs`
  states what holds of every request from its first step to its answer.
  `access.rs` decides who gets through to the endpoints.
- `app/` is the program around it: the configuration file, the HTTP server and
  the database. The satellite, the policy store, the audit log and the tokens
  are reached through the trait `Backend` in `app/backend.rs`.
- `tests/` runs the library.
