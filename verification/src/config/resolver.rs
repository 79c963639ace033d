//! Resolving the configured paths into absolute texts.
use vstd::prelude::*;

use crate::config::config::{Config, ConfigError};
use crate::util::helpers::{join_path, path_join, resolve_path, resolves_to, tilde_expand, tilde_outcome};

verus! {

/// Whether `resolved` is `cfg` with its paths resolved: the root directory
/// (the environment override, tilde-expanded, when given; otherwise the
/// configured root resolved against the configuration directory), then the
/// keypair and products directories and the vault files resolved against the
/// root; everything else unchanged.
pub open spec fn paths_resolved(cfg: Config, cfg_dir: Seq<char>, env_root: Option<Seq<char>>, resolved: Config) -> bool {
    let root = resolved.paths.root_dir@;
    &&& match env_root {
        Some(e) => tilde_outcome(e, root),
        None => resolves_to(cfg_dir, cfg.paths.root_dir@, root),
    }
    &&& resolves_to(root, cfg.paths.keypair_dir@, resolved.paths.keypair_dir@)
    &&& resolves_to(root, cfg.paths.products_dir@, resolved.paths.products_dir@)
    &&& resolves_to(root, cfg.vault.file@, resolved.vault.file@)
    &&& resolves_to(root, cfg.vault.password_file@, resolved.vault.password_file@)
    &&& resolved.paths.product_file == cfg.paths.product_file
    &&& resolved.paths.editions_subdir == cfg.paths.editions_subdir
    &&& resolved.paths.edition_file == cfg.paths.edition_file
    &&& resolved.paths.applications_subdir == cfg.paths.applications_subdir
    &&& resolved.paths.application_file == cfg.paths.application_file
    &&& resolved.paths.license_file == cfg.paths.license_file
    &&& resolved.paths.output_dir == cfg.paths.output_dir
    &&& resolved.db == cfg.db
}

/// Resolves all paths in the configuration into deterministic absolute
/// texts.  `env_root` is the value of `LICENSEGEN_ROOT_DIR`, if set.
pub fn resolve_paths(cfg: &mut Config, cfg_dir: &str, env_root: Option<String>) -> (r: Result<(), ConfigError>)
    ensures
        r is Ok,
        paths_resolved(*old(cfg), cfg_dir@, match env_root { Some(e) => Some(e@), None => None }, *final(cfg)),
{
    let root_dir = match &env_root {
        Some(e) => tilde_expand(e.as_str()),
        None => resolve_path(cfg_dir, cfg.paths.root_dir.as_str()),
    };
    let keypair_dir = resolve_path(root_dir.as_str(), cfg.paths.keypair_dir.as_str());
    let products_dir = resolve_path(root_dir.as_str(), cfg.paths.products_dir.as_str());
    let vault_file = resolve_path(root_dir.as_str(), cfg.vault.file.as_str());
    let vault_password_file = resolve_path(root_dir.as_str(), cfg.vault.password_file.as_str());
    cfg.paths.root_dir = root_dir;
    cfg.paths.keypair_dir = keypair_dir;
    cfg.paths.products_dir = products_dir;
    cfg.vault.file = vault_file;
    cfg.vault.password_file = vault_password_file;
    Ok(())
}

/// The directory of a product.
pub fn product_dir(cfg: &Config, product: &str) -> (r: String)
    ensures
        r@ == path_join(cfg.paths.products_dir@, product@),
{
    join_path(cfg.paths.products_dir.as_str(), product)
}

/// The directory of an edition of a product.
pub fn edition_dir(cfg: &Config, product: &str, edition: &str) -> (r: String)
    ensures
        r@ == path_join(path_join(cfg.paths.products_dir@, product@), edition@),
{
    let p = product_dir(cfg, product);
    join_path(p.as_str(), edition)
}

/// The directory of a user of an edition of a product.
pub fn user_dir(cfg: &Config, product: &str, edition: &str, user: &str) -> (r: String)
    ensures
        r@ == path_join(path_join(path_join(cfg.paths.products_dir@, product@), edition@), user@),
{
    let e = edition_dir(cfg, product, edition);
    join_path(e.as_str(), user)
}

} // verus!
