//! A small text search library: it picks out the lines of a text that contain
//! a query, with or without regard to letter case, and resolves the search
//! settings from command-line arguments and an environment signal.
pub mod config;
pub mod search;
pub mod text;
