//! Configuration.
pub mod config;
pub mod loader;
pub mod resolver;
