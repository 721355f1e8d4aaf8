//! Data-access rules of a small book and user service.
//!
//! The crate holds everything the service decides: which statement an
//! operation sends to the database, how the rows that come back become
//! records, which error each failure is, and which HTTP status it maps to.
//! It performs no I/O itself; the caller owns the connection pool and the
//! HTTP server and feeds their results in as plain values.

pub mod db;
pub mod errors;
pub mod handlers;
pub mod identifier;
pub mod laws;
pub mod models;
pub mod row;
