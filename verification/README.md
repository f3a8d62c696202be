# vss_server

A versioned key-value store for wallets, kept in a DynamoDB table. Writes carry the version that
they expect to find, and go through only where it is there.

- `src/` is the library, verified with [Verus](https://github.com/verus-lang/verus). It decides
  which requests go to the table service, what the answers mean, how HTTP requests are routed and
  how the server starts and stops. It does no input or output.
  - `dynamodb_store`, `put`, `list`: the backend of the store.
  - `records`, `items`, `requests`, `types`, `text`: what it works on.
  - `routes`, `server`: the HTTP side and the running of the server.
  - `octets`, `clock`: the calls into `bytes` and `chrono`, which are believed and not proved.
  - `table`, `put_laws`, `list_laws`: what the requests do to a table, and the laws of the store.
- `app/` is the program around it: an AWS Lambda function or an HTTP server of its own.
- `tests/` runs the library, over a table in memory where one is needed.
