# AgentMesh core

The decisions of the AgentMesh workflow daemon as a Verus library: configuration
layers and their validation, the domain model, the provenance ledger with its
hash chain and replay, workflow graphs, evaluation and competition bookkeeping,
plans, replans and recoveries, leases, live tasks and the client protocol.

- `src/` holds the library. Its functions state in their contracts what they
  return; of a random identifier or the time, what holds of every outcome. The
  laws that relate several functions are public proof functions.
- `tests/` runs the library on concrete values.
- `app/` is the daemon around it: files, HTTP, event streams, and services that
  carry out what the library decides over the traits of `app/ports.rs`.

Calls into other crates stand behind small functions whose doc comments say what
is taken on trust: random and time values, UUID and RFC 3339 texts, SHA-256, JSON
string literals, reading JSON texts, and reading bytes as UTF-8.

Four of the five built-in agents are named in the library; the id of the fifth,
the lead agent, is given by whoever builds the configuration.
