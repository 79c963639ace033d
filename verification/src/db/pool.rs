//! The database address.
use vstd::prelude::*;

use crate::text::{dec, push_dec, push_str};
use crate::vault::types::VaultSecrets;

verus! {

/// The MySQL URL `mysql://<user>:<pass>@<host>:<port>/<database>`.
pub open spec fn connection_url(s: VaultSecrets) -> Seq<char> {
    "mysql://"@ + s.user@ + ":"@ + s.pass@ + "@"@ + s.host@ + ":"@ + dec(s.port as nat) + "/"@
        + s.database@
}

/// The MySQL URL the pool connects to.
pub fn connection_string(cfg: &VaultSecrets) -> (r: String)
    ensures
        r@ == connection_url(*cfg),
{
    let mut s = String::new();
    push_str(&mut s, "mysql://");
    push_str(&mut s, cfg.user.as_str());
    push_str(&mut s, ":");
    push_str(&mut s, cfg.pass.as_str());
    push_str(&mut s, "@");
    push_str(&mut s, cfg.host.as_str());
    push_str(&mut s, ":");
    push_dec(&mut s, cfg.port as u64);
    push_str(&mut s, "/");
    push_str(&mut s, cfg.database.as_str());
    s
}

} // verus!
