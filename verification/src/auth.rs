//! Authentication: bearer tokens, their claims, and user accounts.
pub mod extractor;
pub mod user;
