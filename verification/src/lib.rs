//! Request-pipeline middleware that grants every inbound request exactly one
//! logical path to a shared database connection pool.
//!
//! The crate verifies the core of such a middleware: the idempotent
//! attachment of a pool handle to a request's context, the two
//! connection-access patterns offered to downstream handlers (checkout from
//! a concurrently shared pool, and serialized exclusive access to a single
//! connection), and the checkout accounting of the pool itself. The real
//! connections, the HTTP server and the SQL driver are outside collaborators;
//! an embedding wires them to these types.

pub mod accessor;
pub mod errors;
pub mod middleware;
pub mod pool;
pub mod serialized;
