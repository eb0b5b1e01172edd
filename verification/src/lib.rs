//! Verified core of a desktop gateway to an embedded Postgres server and an
//! interactive shell session.
//!
//! The library holds the logic worth proving: the server lifecycle state
//! machine, the schema initializer, connection-URI construction, result-set
//! serialization, and the terminal session model with its output pump. The
//! surrounding process (the actual database engine, sockets, and the
//! pseudo-terminal) is driven by an unverified shell around this crate, which
//! feeds plain values in and carries actions out.

pub mod conn;
pub mod errors;
pub mod query;
pub mod schema;
pub mod supervisor;
pub mod terminal;
