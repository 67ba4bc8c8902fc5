# cronback

The core of a scheduling service that runs webhooks on cron patterns or at
given time points, written in Verus and verified.

- `src/` is the verified library:
  - `schedule` — schedules and the iterator of their future ticks (cron
    expressions through the `cron` crate, explicit time points);
  - `spinner` — which triggers are due on a tick, how dispatched triggers
    are put back, how finished dispatches are settled;
  - `name_cache` — the per-project cache of trigger names (a `dashmap`);
  - `dispatch`, `webhook` — runs, attempts and the headers of a webhook
    request;
  - `auth`, `auth_middleware` — API keys (SHA-512 and base64 of the secret),
    key checks and the route guards;
  - `config`, `service` — configuration building and reloading, service
    contexts and the identifiers RPC requests carry;
  - `codegen`, `text` — the field conversion code of the proto derive
    macros, and name case conversions;
  - `handlers`, `metadata`, `proto`, `types` — the decisions of the RPC and
    HTTP handlers and the data they share.
- `tests/` exercises the library with the outside crates linked.
- `app/` holds what stays outside the proofs: reading configuration files
  with the `config` crate and watching them, reading HTTP headers, the
  spinner's thread and the loop of a webhook job's attempts.
