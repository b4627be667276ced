# todo_api

A todo-list web service over Postgres and Redis, with accounts and bearer
tokens. The request logic is a Verus library (`src/`); the server program
that does the I/O is `app/`.

- `src/text.rs`: decimal numerals, identifier text, trimming, JSON strings.
- `src/auth/extractor.rs`: bearer tokens in the `Authorization` header, token
  claims and their expiry.
- `src/auth/user.rs`: registration, login and account updates over Argon2
  password hashes.
- `src/http/errors.rs`: the errors of a request and their HTTP answers.
- `src/http/modules.rs`: request and response types of the todo endpoints.
- `src/http/db.rs`: the list statement and the one-row check of writes.
- `src/http/handlers.rs`: the list cache key, the sweep that drops a user's
  cached lists after a write, and the steps of write and list requests.
- `src/modules.rs`, `src/handlers.rs`: the in-memory variant of the endpoints.
- `src/config.rs`: settings.

`app/` holds `main`, the axum handlers, the Postgres statements, the Redis
calls, token signing, and the serde forms of the library's types.
