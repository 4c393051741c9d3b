# bitfun

Verified core logic of the BitFun relay server, the workspace persona bootstrap and
the embedded WebDriver, written in Verus.

- `src/text.rs`: line-ending normalisation (with its laws), decimal rendering, string helpers.
- `src/json.rs`: JSON string literals as serde_json writes them, with their laws.
- `src/persona.rs`: which persona placeholder files to create, and the persona prompt.
- `src/relay.rs`: relay API records and handler decisions (directions, statuses,
  room web paths, MIME types, mobile-web uploads).
- `src/webdriver/`: errors, the script bridge (injected script, pending request table,
  script outcomes) and the command handlers' scripts and replies.
- `app/`: the axum routes, file I/O and Tauri glue around the library (not verified).
