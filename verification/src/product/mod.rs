//! Products, editions and application requests.
pub mod keypairs;
pub mod loader;
pub mod sync;
pub mod types;
