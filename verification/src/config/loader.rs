//! Loading the configuration and resolving its paths.
use vstd::prelude::*;

use crate::config::config::{Config, ConfigError};
use crate::config::resolver::{paths_resolved, resolve_paths};

verus! {

/// Resolves the paths of a loaded configuration against the directory the
/// configuration file sits in (the manifest directory); a loading error is
/// passed on.  `env_root` is the value of `LICENSEGEN_ROOT_DIR`, if set.
pub fn load_and_resolve(loaded: Result<Config, ConfigError>, manifest_dir: &str, env_root: Option<String>) -> (r: Result<Config, ConfigError>)
    ensures
        loaded is Err ==> r == loaded,
        loaded matches Ok(cfg) ==> r matches Ok(res) && paths_resolved(
            cfg,
            manifest_dir@,
            match env_root { Some(e) => Some(e@), None => None },
            res,
        ),
{
    let mut cfg = match loaded {
        Ok(c) => c,
        Err(e) => return Err(e),
    };
    let _ = resolve_paths(&mut cfg, manifest_dir, env_root);
    Ok(cfg)
}

} // verus!
