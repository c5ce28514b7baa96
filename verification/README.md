# ZeroClaw core

The decisions of an agent runtime, verified with Verus: how a run is planned, what counts as proof
that it is complete, whether the daemon may start, and how mail is sent and looked up.

- `src/agent` — planning a run (`planner`) and finding the completion proof in a tool's output
  (`completion`). `planner_laws` states what holds of planning as a whole; `reader` says what the
  laws take for granted of whoever reads JSON, which is done outside the core.
- `src/daemon` — the PID file (`pid`) and the preflight checks (`preflight`).
- `src/tools/mail` — the mail tool. `tool` reads the arguments, `scan` looks through the folders,
  `message` turns raw bytes into records, `compose` builds outgoing mail, and `laws` follows a
  lookup from its first folder to its answer.
- `src/json` and `src/text` — JSON documents and text, as far as the rest needs them.
- `app` — the runtime around the core: model providers, files, SMTP and IMAP, the environment and
  the log. It is ordinary Rust and not verified.

Proof functions named `law_*` state what the library promises beyond single functions. Functions
marked `#[verifier::external_body]` call other crates; the comment above each says what is taken on
trust.
