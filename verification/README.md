# truehub_api

A client for the TrueNAS JSON-RPC websocket API, with a GTK desktop front end.
The library is written in Verus: its functions carry `requires`/`ensures`
contracts, and the laws that relate them are proof functions checked by Verus.

## Layout

- `src/` — the verified library.
  - `url.rs` — normalising a server address to `ws[s]://host/api/current`
    (and the law that normalising twice changes nothing).
  - `client.rs`, `manager.rs` — what a JSON-RPC reply means, what a failed call
    reports, how the reader treats each message, and the one-time recovery from
    a refused session.
  - `store/` — saved servers, accounts, the last used profile and the current
    session, the secrets kept per account in the keyring; laws on saving,
    finding, forgetting and reading back.
  - `flows/` — the start-up sequence and the sign-in, each as a step function
    from stage and event to next stage and action, with their laws.
  - `services/` — reading `auth.login_ex` replies, looking up a job.
  - `views/` — what the pages show: pool health, scan and scrub details, disk,
    share and performance helpers.
  - `models/`, `methods.rs`, `result.rs` — the API's data types and method names.
  - `text.rs`, `json.rs` — string helpers with their specifications, and the
    declaration of `serde_json::Value`.
- `tests/` — tests of the library on concrete values.
- `app/` — the program around the library: the websocket, files, keyring,
  serde copies of the library's types, and the GTK pages.
