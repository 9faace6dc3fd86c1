# oxmux

Headless core of a subscription-aware local AI proxy, written in Verus: every
function of the library carries a contract that Verus proves.

## Layout

- `src/` — the verified library.
  - `routing.rs`: model aliases, routes, availability, candidate evaluation and
    explicit targets; laws on selected targets.
  - `provider.rs`: provider/account summaries and the deterministic mock provider.
  - `protocol.rs`, `streaming.rs`, `reasoning.rs`: canonical payloads, stream
    event ordering, reasoning intent and capability evaluation.
  - `configuration/`: raw values, their validation into a configuration with
    every diagnostic, IP address text, read-error classification, snapshots.
  - `minimal_proxy.rs`, `json.rs`: the chat-completions smoke route and its JSON.
  - `local_runtime.rs`: request framing, header parsing and responses of the
    loopback runtime.
  - `local_client_auth.rs`, `model_registry.rs`, `management.rs`, `usage.rs`,
    `errors.rs`, `text.rs`.
- `app/` — the edges Verus does not see: TOML reading with serde, files, and the
  TCP runtime with its worker thread.
- `tests/` — integration tests of the library.
