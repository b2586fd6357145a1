//! Core of a command-line client for a Redmine-style issue tracker: the
//! reference-data cache with its freshness rule, the status-name resolver,
//! and the request and argument rules around them.

pub mod args;
pub mod cache;
pub mod client;
pub mod models;
pub mod resolver;
pub mod text;
pub mod user_config;
