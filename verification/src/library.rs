//! The local music library: schema states, import bookkeeping, search query
//! construction and schema migration decisions.  The SQLite connection itself
//! is opened and driven by the application.

pub mod connect;
pub mod import;
pub mod schema;
pub mod search;
