# backend

The request handling of two small HTTP services, verified with Verus:

* a product catalogue with administrator accounts (registration, login with a
  signed access token, and creating, deleting, retrieving and updating products);
* a user service (listing, adding and editing users).

`src/` holds the decisions. Each route is a state machine: it starts from the
request, names the next database query (or password hash, check, or claims
encoding) for the caller to run, takes its outcome back, and ends with a reply
(`src/reply.rs`). The contracts state each transition exactly; proof functions in
`src/products/create.rs` state what holds of whole runs.

`app/` is the HTTP server: it runs the queries with sqlx, hashes and checks
passwords with argonautica, serialises with serde, and turns replies into
responses.
