# backend_rust

The verified core of an e-commerce backend: a store with products,
categories, customers, bots and payment providers, served over HTTP and kept
in Postgres.

`src/` is the library, checked by Verus:

- `query`, `sql`: the `WHERE`, `ORDER BY` and `LIMIT`/`OFFSET` clauses that
  list queries add to a `SELECT`, with the values bound to each placeholder.
- `list_request`: checking a client's list query (allowed columns, page
  bounds) and reading query-string values.
- `update_sql`: the partial `UPDATE` statements of the repositories, with
  the value bound to each placeholder.
- `settings`: reading the store settings from their key/value rows, the rows
  an update writes, and what is read back after an update.
- `errors`: the error kinds, how one becomes another, and the HTTP answer
  each is given.
- `middleware`: the decisions of the request guards (service key, bearer
  token, bot id, permissions).
- `payment`: the messages of the payment providers, token caching, the
  one-time code of the second login step (the TOTP of the decoded secret,
  computed by `totp-rs`) and the reading of their answers.
- `bootstrap`, `seed`: the first start (administrator, permissions, store
  balance), the test catalogue, and which categories and products a seeding
  run creates.
- `text`, `values`: decimal integers, splitting and joining, trimming, and
  the UUID, decimal and boolean texts.

`app/` is the program around it: configuration, the HTTP server, the
database and provider I/O. `tests/` runs the library on concrete values.
