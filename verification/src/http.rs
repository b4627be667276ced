//! The todo endpoints: request and response types, errors, queries and the
//! list cache.
pub mod errors;
pub mod modules;
pub mod db;
pub mod handlers;
