//! A bridge that executes SQL text against a relational engine on behalf of a
//! host that understands only a handful of primitive value types: it manages a
//! single connection, runs simple (unparameterized) queries, drains
//! asynchronous notifications, encodes every result as self-describing JSON
//! text, and records the outcome of each operation for polled error reporting.
pub mod errors;
pub mod json;
pub mod serializer;
pub mod session;
