//! A verified core for an SQLx driver for rxqlite, a distributed SQLite:
//! query arguments, value encoding and decoding, connection options, and the
//! conversion of the rows that the server sends back.

pub mod arguments;
pub mod type_info;
pub mod types;
pub mod value;
pub mod options;
pub mod row;
pub mod executor;
pub mod connection;
