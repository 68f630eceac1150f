# Arrow Flight SQL server with DataFusion and Iceberg

A server that clients reach over Arrow Flight SQL, for example by JDBC, to query Iceberg tables
with DataFusion.

- `src/` is the library: who may open a session, which session a request belongs to, which plans
  and results are kept under which handle, and what each request is answered. It is verified with
  Verus; `laws.rs` states what holds of it as a whole.
- `app/` is the server around it: the network, the catalogs and the query engine's asynchronous
  calls. Its first argument names the catalog, `rest` or `sql`.
- `tests/` runs the library on concrete requests.

## Environment

Both servers:

- `FLIGHT_USER`, `FLIGHT_PASSWORD`: what a client has to send as Basic authorization, in base64
  without padding; neither may hold a colon
- `TLS_DOMAIN`: the domain of a self-signed certificate; without it the server speaks plain text
- `CURRENT_SCHEMA`, `CURRENT_DATABASE`: what `current_schema()` and `current_database()` return
- `BUCKET`, `AWS_DEFAULT_REGION`, `AWS_ACCESS_KEY_ID`, `AWS_SECRET_ACCESS_KEY`, `AWS_ENDPOINT`:
  the S3 bucket that tables are stored in; without it they are stored in memory

`sql`:

- `CATALOG_URL`: the database of the catalog

`rest`:

- `ICEBERG_CATALOG_URL`: the address of the catalog
- `ICEBERG_CATALOG_USERNAME`, `ICEBERG_CATALOG_PASSWORD`, `ICEBERG_CATALOG_BEARER_TOKEN`,
  `ICEBERG_CATALOG_OAUTH_TOKEN`: how to log in to it
- `AWS_ALLOW_HTTP`: `TRUE` allows an S3 endpoint without TLS
