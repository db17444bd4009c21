# cliproxy_admin

Key administration for an OpenAI-style API proxy: API keys with token quotas, a
forwarding proxy that counts the tokens of each upstream answer, an admin
interface and a public balance check.

## Layout

- `src/` — the library, verified with Verus.
  - `keys` — the lifecycle of a key: creation, edits, enabling, disabling,
    deletion, usage resets and token accounting with automatic disabling at the
    quota.
  - `token_usage`, `json` — token counts and model names read from JSON bodies
    and server-sent event streams.
  - `proxy` — bearer credentials, key admission, forwarded headers, upstream
    address, request ids.
  - `admin_auth` — HTTP Basic credentials of the admin interface.
  - `models`, `listing`, `admin`, `public_query`, `config`, `db`, `keygen` —
    records and views, listing parameters, form checks, settings, the SQLite
    file path and fresh identifiers.
  - `datetime` — the calendar date and time of a timestamp and its
    `%Y-%m-%d %H:%M:%S` text, which the local-time texts of the views are
    stated against.
  - `laws` — properties that span several operations.
  - `text`, `error` — text helpers and error kinds.
- `tests/` — tests of the library.
- `app/` — the service: HTTP routes (axum), the SQLite store (sqlx), the
  upstream client (reqwest) and start-up.

## Settings

`BIND_ADDR`, `DATABASE_URL`, `UPSTREAM_BASE_URL`, `UPSTREAM_BEARER_KEY` (required),
and `ADMIN_USERNAME` with `ADMIN_PASSWORD` to put the admin pages behind HTTP
Basic authentication.
