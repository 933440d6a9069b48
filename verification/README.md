# rust_chat_server

A self-hosted chat server (spaces, channels, roles, invites, messages, files,
voice and video call tokens, realtime events) whose decision logic is a
library verified with Verus.

## Layout

- `src/` — the verified library. The server's rules, checks, formats and
  token handling are here, each with a contract:
  - `permissions/` — the permission keys, the five-layer resolution (instance
    owner, space membership, roles, channel overrides, channel features) as a
    specification with its laws, and the check as a state machine that asks
    the database one question at a time;
  - `auth` — credential rules, password hashing (Argon2id), bearer tokens,
    signed tokens (HS256 JWTs), token claims and sessions;
  - `realtime` — the WebSocket session as a state machine, and the Redis keys
    of typing and presence;
  - `spaces`, `messages`, `invites`, `files`, `media` — the rules of each
    service: who may do what, what is refused and with which error;
  - `uploads`, `media` and `refresh` hold the upload, the call-token and the
    login-refresh requests as state machines, one outside answer at a time;
  - `domain`, `theme`, `config`, `sql`, `slug`, `rate_limit`, `pagination`,
    `error`, `ids`, `text` — values, formats and their text forms.
- `app/` — the server around the library: configuration from the environment,
  PostgreSQL and Redis access, the HTTP routes and the WebSocket loop. It
  hands the library plain values and acts on its answers. The order in which
  a service runs the library's checks and its database writes (for
  instance: check the name, then create the row) is written there and is not
  verified; the upload, the call token, the login refresh, the permission
  check and the WebSocket session are the exceptions, driven by state
  machines in `src/`.
- `tests/` — tests of the library on concrete values.
