# remote_cockpit

A phone-to-workstation terminal cockpit: a desktop agent runs a PTY, a TLS
WebSocket gateway authenticates both ends with JWTs and routes between them,
and a phone client (here a command-line simulator) drives the session.

- `src/` is the verified library: the binary frame format, the identifiers
  and claims, dangerous-command detection, the file browser's jail and
  listing order, configuration decisions, the gateway's admission and
  routing (with what it audits), the desktop agent's state machine and the
  phone client's decisions. Each public function states its result in its
  contract, except what rests on chance (random ids and keys) or on what an
  outside crate does with it (what a regex matches, whether certificate
  generation succeeds); `src/laws.rs` holds the properties that span the
  three parties.
- `app/` is the program around it: sockets, TLS, the PTY, the SQLite audit
  writer, JSON on the wire, environment and file access, and `main`
  (`gateway`, `desktop` or `phone-sim`).
- `tests/` runs the library on concrete inputs.
