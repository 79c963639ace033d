//! The configuration `licensegen.yml` holds.
use vstd::prelude::*;

verus! {

/// Why the configuration could not be loaded.
pub enum ConfigError {
    ReadError(String),
    ParseError(String),
}

/// The whole configuration.
pub struct Config {
    pub vault: VaultConfig,
    pub paths: PathsConfig,
    pub db: Option<DbConfig>,
}

/// Where the vault and its password are.
pub struct VaultConfig {
    pub file: String,
    pub password_file: String,
}

/// Directory and file names of the product tree.
pub struct PathsConfig {
    pub root_dir: String,
    pub keypair_dir: String,
    pub products_dir: String,
    pub product_file: String,
    pub editions_subdir: String,
    pub edition_file: String,
    pub applications_subdir: String,
    pub application_file: String,
    pub license_file: String,
    pub output_dir: Option<String>,
}

/// How to reach the database.
pub struct DbConfig {
    pub rdbms: String,
    pub host: String,
    pub port: u16,
    pub user: String,
    pub password: String,
    pub database: String,
}

} // verus!
