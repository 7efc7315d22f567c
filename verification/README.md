# weir-agent

An agent that polls a local Weir instance's `/events` endpoint and forwards
per-request usage metadata to a backend, tracking a persisted
`(generation, cursor)` with restart detection and at-least-once delivery.

- `src/` is the library, verified with Verus: the configuration rules
  (`config`), the agent state (`state`), what the agent reads of Weir's
  events and answers (`weir`, `backend`), and the poll cycle as a state
  machine (`forwarder`) together with the laws it keeps.
- `app/` is the binary: HTTP calls (reqwest), JSON (serde), the state file,
  environment variables and the poll loop (tokio). It performs each step the
  library's cycle asks for and hands back what became of it.
- `tests/` exercises the library.
