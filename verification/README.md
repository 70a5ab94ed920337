# chat_backend

The rules of a chat server, verified with Verus: registration and login,
password hashing, access-token claims, request validation and its error
report, chat membership, message deletion, pagination, the relay of
websocket messages, the profile look-up through the cache, request
authentication, and the HTTP answer to each error.

- `src/` is the verified library. Identifiers are UUIDs held as `u128`
  (big-endian, so they order as the UUIDs do); times are microseconds since
  the Unix epoch. Calls into `argon2`, `jsonwebtoken`, `uuid`, `validator`,
  `chrono` and the standard library stand behind small trusted wrappers whose contracts name
  what they return.
- `app/` is the server around it: `axum` routes and middleware, PostgreSQL
  through `sqlx`, Redis, JSON encoding of responses, configuration and `main`.
- `tests/` runs the library on concrete values.
