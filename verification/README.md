# nyxx

The decision logic of Nyxx, a desktop automation agent, written in Verus and
proved against its contracts.

## Layout

- `src/` — the verified library.
  - `orchestrator.rs` — the agent's state machine (idle, listening,
    recording, executing), the macro recorder with its auto-repeat filter and
    the missed Win-key correction, and the task driver that tells the host
    what to do next.
  - `macro_runtime.rs` — the one-macro-at-a-time runtime and its stop
    requests.
  - `api_server.rs` — the logic behind the local HTTP bridge: request body
    sanitising and candidate selection, form bodies, error-to-status mapping,
    method checks, help and "about" pages, clipboard input and output plans,
    and the key sequence for a new virtual desktop.
  - `json.rs` — a JSON tree and the search for usable text in it.
  - `text.rs` — character-sequence helpers with exact specifications.
  - `modules/` — input events and keys (`io_controller`), macro data
    (`macro_engine`), and the handling of model replies (`cognition`).
  - `trusted.rs` — calls into `serde_json`, `url`, `base64`, `image` and
    `std` whose contracts are assumed; each says what it claims.
- `tests/` — tests run against the compiled library.
- `app/` — the desktop shell around the library: window, tray and shortcut
  handling, the HTTP server, clipboard and keyboard/mouse I/O, key storage
  and the model client.

The laws of the library (what every transition keeps, what stopping undoes,
which events are recorded) are public proof functions named `law_*`.
