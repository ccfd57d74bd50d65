# codex_core

The decision-making core of a coding agent, written in Verus.

- `src/` — the library: feature flags, model catalog selection and merging,
  token accounting, rollout truncation and forking, thread metadata
  extraction, environment and additional context rendering, the sign-in
  recovery state machine, exec output capture and assembly, tool
  specifications, the web search tool's history handling, session and thread
  settings, and edits to the configuration file's text. The `law_*` proof
  functions state properties that hold across calls (round trips,
  idempotence, what a merge keeps).
  - Every function Verus verifies against its contract, except the
    `#[verifier::external_body]` wrappers. Each of those makes one call into
    std or an outside crate (`uuid`, `chrono`, `time`, `base64`, `url`,
    `serde_json`, `toml_edit`) and is trusted to meet its contract; its doc
    comment names the call and what the contract claims of it.
  - Path helpers follow Unix path rules.
  - URLs are checked with the `url` crate, the same parser that the HTTP
    client of the agent (`reqwest::Url`) re-exports.
- `tests/` — executable tests of the library on concrete values.
- `app/` — the thin shell around the library: reading the process
  environment, parsing JSON and the command line into the library's types,
  running commands (the library decides what is kept of their output and
  what the caller is told), reading and writing files (the configuration file's new text comes from the
  library), and the one computation done in floating point.
