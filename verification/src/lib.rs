//! Request-handling logic of a small todo-list web service.

pub mod text;
pub mod http;
pub mod auth;
pub mod config;
pub mod modules;
pub mod handlers;
