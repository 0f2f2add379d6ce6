# hotserver

The decisions of a hot-reloadable web server, proved with Verus.

- `src/` is the verified library: the handlers' answers and texts, the port and URL
  handling, session identifiers and the cookie key, the login exchange, and the run of a
  server or migration against the database (which always closes the database once the
  work has run).
- `app/` plugs the library into axum, poem, sea-orm, tokio and tracing: it reads the
  environment, listens, talks to the database and performs the steps that the library
  asks for. The axum routes that keep sessions (login, frontend sessions, the pool's own
  operations) are written against a session-pool trait in `app/server/pool_routes.rs`,
  since the pool crate they ran on is not part of this tree; the poem endpoints keep
  their sessions in poem's memory storage for the same reason.
- `tests/` runs the library on concrete values.
