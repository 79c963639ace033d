//! Keypair file locations under the project directory.
use vstd::prelude::*;

use crate::product::keypairs::key_file_name;
use crate::text::{push_str, to_lowercase};
use crate::util::helpers::{join_path, path_join};

verus! {

/// The private and public key files of a keypair base name: the keypair
/// directory joined to the project directory, then
/// `<base lowercased>_prv.pem` and `<base lowercased>_pub.pem`.
pub fn resolve_keypair_paths(base_name: &str, keypair_dir: &str, manifest_dir: &str) -> (r: (String, String))
    ensures
        r.0@ == path_join(path_join(manifest_dir@, keypair_dir@), key_file_name(base_name@, "_prv.pem"@)),
        r.1@ == path_join(path_join(manifest_dir@, keypair_dir@), key_file_name(base_name@, "_pub.pem"@)),
{
    let dir = join_path(manifest_dir, keypair_dir);
    let mut private_name = to_lowercase(base_name);
    push_str(&mut private_name, "_prv.pem");
    let mut public_name = to_lowercase(base_name);
    push_str(&mut public_name, "_pub.pem");
    (join_path(dir.as_str(), private_name.as_str()), join_path(dir.as_str(), public_name.as_str()))
}

} // verus!
