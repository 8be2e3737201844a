# quackgis_server

The verified core of the QuackGIS PostgreSQL/DuckDB edge, written in Verus.

`src/` is the library. Every function in it is verified but for a few
trusted wrappers, each around one call into std, `memchr`, `rust_decimal`
or `chrono`. The wire protocol, the SQL parser and the engine are not part
of it: the server gathers what the decisions read from them and carries
out what is decided.

- `copy_text` — incremental PostgreSQL text `COPY` decoding into bounded
  batches, field unescaping and typed column values;
  `copy_stream` — what a whole stream decodes to, with the laws that chunk
  boundaries do not matter and that batches stay bounded.
- `mvt` — WKB reading and writing (with the round-trip law) and Mapbox
  Vector Tile encoding.
- `execution_control` — admission, blocking-worker and cancellation
  counters, and the registry of cancellable queries.
- `lifecycle` — readiness and transaction drain.
- `metrics` — counters, the Prometheus text and the HTTP status routes;
  `result_batches` — the byte ceiling on query result batches.
- `postgres_compat`, `postgis_compat`, `pg_names`, `sql_text` — the
  PostgreSQL catalog bootstrap SQL, identifier parsing and quoting (with the
  law that a printed identifier reads back as itself), privilege inquiry
  rules, and the fixed vocabularies of the statement policy.
- `statement_policy` — which parsed statement a client may run, the order
  of the refusals, the kind of an accepted statement and the `SHOW`
  rewrites; `requests` — how a statement is routed when prepared, how its
  parameters are typed, and what executing it does; `session` — opening a
  `COPY` and the SQL cursors of a session.
- `pgwire_server`, `startup` — server options and the settings a server
  refuses to start with.

`app/` holds the program around it: argument handling, the tokio status
listener, semaphore-based admission, Arrow batch building and the
floating-point tile transforms.
