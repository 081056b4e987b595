# rust_auth

An authentication and user-account service (register, login, token refresh,
logout, profile management) whose logic is verified with Verus.

- `src/` — the verified library. Input validation, error reporting,
  configuration loading, token claims, and every endpoint as a state machine:
  a flow takes a state and the answer to its last command and gives the next
  state and command, or the final answer. The commands (queries of the
  PostgreSQL store, commands of the Redis session cache, token signing,
  password hashing) are performed by the caller. `src/laws.rs` states the
  properties that span several steps, such as token rotation on refresh and
  session eviction on logout.
- `tests/` — tests of the library on concrete values.
- `app/` — the HTTP server (axum): reads the environment, performs the flows'
  commands with sqlx, deadpool-redis, jsonwebtoken and argon2, and exports
  OpenTelemetry metrics.
