//! A typed, owned layer for building collection parameters and walking
//! query results of a Cassandra-style row/column database.
//!
//! The native driver (connections, statement execution, wire encoding) is
//! supplied by the caller; this crate holds the values, the collection
//! builder, the result handle with its row cursor, and the mapping of native
//! status codes onto one closed error type.
pub mod collection;
pub mod error;
pub mod result;
pub mod value;
