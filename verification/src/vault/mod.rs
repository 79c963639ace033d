//! Reading the secrets an Ansible vault holds.
pub mod cipher;
pub mod types;
pub mod decryptor;
pub mod reader;
pub mod loader;
