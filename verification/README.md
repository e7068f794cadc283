# saturation

A command-line client for the Saturation public API, whose decisions are
proved with Verus.

## Layout

- `src/` — the verified library.
  - `v1/` — the public `/v1` API: the command model (`cli`), request
    planning for every resource command (`plan`), base-URL and path
    building and the reading of responses (`client`), and the typed error
    model (`error`).
  - `auth.rs` — the OAuth sign-in and refresh decisions: metadata
    validation, PKCE, the authorization URL, the loopback callback, token
    checks, identity, expiry, and sign-out.
  - `config.rs` — the stored configuration and its rules (hosts, token
    expiry and refresh, saved workspaces, where the file lives).
  - `workspace.rs`, `agent.rs` — saved agent workspaces and the agent
    registry client's decisions.
  - `schema.rs` — the operation inventory scanned from the bundled OpenAPI
    document, and its JSON form.
  - `output.rs`, `text.rs`, `json.rs` — table and CSV layout, styled status
    lines, text utilities, and the JSON parser boundary.
- `tests/` — tests of the library.
- `app/` — the executable: argument parsing, HTTP, files, the terminal.

Calls into outside crates (`url`, `chrono`, `sha2`, `base64`, `rand`,
`dirs`, `serde_json`) are made through small trusted wrappers whose
contracts say what the library relies on.
