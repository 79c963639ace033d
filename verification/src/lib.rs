//! Deterministic license generation: canonical payloads, signing and
//! validation of license artifacts, validity arithmetic, configuration
//! path resolution and Ansible-vault decoding.
pub mod text;
pub mod util;
pub mod config;
pub mod db;
pub mod product;
pub mod license;
pub mod vault;
pub mod signing;
