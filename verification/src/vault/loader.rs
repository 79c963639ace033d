//! Where the vault files are.
use vstd::prelude::*;

use crate::config::config::Config;
use crate::util::helpers::{resolve_path, resolves_to};

verus! {

/// The vault file and its password file: the environment overrides
/// (`LICENSEGEN_VAULT_FILE`, `LICENSEGEN_VAULT_PASSWORD_FILE`) where set,
/// else the configured paths, each resolved against the configuration
/// directory.
pub fn resolve_vault_paths(
    cfg: &Config,
    cfg_dir: &str,
    env_vault_file: Option<String>,
    env_password_file: Option<String>,
) -> (r: (String, String))
    ensures
        resolves_to(
            cfg_dir@,
            match env_vault_file { Some(e) => e@, None => cfg.vault.file@ },
            r.0@,
        ),
        resolves_to(
            cfg_dir@,
            match env_password_file { Some(e) => e@, None => cfg.vault.password_file@ },
            r.1@,
        ),
{
    let vault_file = match &env_vault_file {
        Some(e) => resolve_path(cfg_dir, e.as_str()),
        None => resolve_path(cfg_dir, cfg.vault.file.as_str()),
    };
    let password_file = match &env_password_file {
        Some(e) => resolve_path(cfg_dir, e.as_str()),
        None => resolve_path(cfg_dir, cfg.vault.password_file.as_str()),
    };
    (vault_file, password_file)
}

} // verus!
