# sqlx_rxqlite

The core of an SQLx driver for rxqlite, a distributed SQLite built on Raft.

- `src/` is verified: connection options and the node address they give,
  query arguments, the SQL types of `bool`, `String` and text-wrapped values
  (encoding and decoding), the conversion of the rows and statement outcomes
  that a node sends back, and opening a connection: what the client for a
  node is built from (node id, `host:port` address, TLS settings) is stated;
  the client itself comes from `rxqlite_client`.
- `app/` holds the network side: it sends queries with `rxqlite_client`,
  converts between the wire types of `rxqlite_common` and the library's own,
  and hands the answers to the library.
- `tests/` runs the library on concrete values.
