# mdsns_backend

The backend of a small Markdown social network: users sign in through
Firebase, post Markdown texts, reply to posts and mark posts as favorites.

- `src/` is the verified library. The database work of each request is a
  flow: a value that names the next query and takes its answer, so that the
  decisions (what to read, what to write, what to return) are proved
  against the contracts without a database. `src/laws.rs` states and proves
  what whole runs of these flows give back against a model of the tables.
- `app/` runs the service: actix-web handlers, diesel queries against
  Postgres, the Firebase lookup and the JWKS download. It answers each
  query that a flow names and hands the answer back.
- `tests/` exercises the library on concrete values.
