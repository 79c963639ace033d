//! Path resolution and small string helpers.
//!
//! Paths are texts, joined as `PathBuf::push` joins them on Unix: an
//! absolute path (one starting with `/`) replaces the base; otherwise a `/`
//! separates base and path unless the base is empty or already ends with one.
use vstd::prelude::*;

use crate::text::{chars_of, push_char, push_str, string_of};

verus! {

/// `base` joined with `p`.
pub open spec fn path_join(base: Seq<char>, p: Seq<char>) -> Seq<char> {
    if p.len() > 0 && p[0] == '/' {
        p
    } else if base.len() == 0 || base.last() == '/' {
        base + p
    } else {
        base + seq!['/'] + p
    }
}

/// Joins a path to a base path.
pub fn join_path(base: &str, p: &str) -> (r: String)
    ensures
        r@ == path_join(base@, p@),
{
    let pc = chars_of(p);
    if pc.len() > 0 && pc[0] == '/' {
        return string_of(pc.as_slice());
    }
    let bc = chars_of(base);
    let mut s = string_of(bc.as_slice());
    if bc.len() > 0 && bc[bc.len() - 1] != '/' {
        push_char(&mut s, '/');
    }
    push_str(&mut s, p);
    s
}

/// Whether shellexpand's tilde expansion applies to a text: it is `~` or
/// starts with `~/`.
pub open spec fn tilde_applies(raw: Seq<char>) -> bool {
    raw.len() > 0 && raw[0] == '~' && (raw.len() == 1 || raw[1] == '/')
}

/// The outcomes shellexpand's `tilde` can have: a text it does not apply to
/// is left as it is; otherwise the `~` is replaced by the home directory, or
/// the text is left as it is when no home directory is known.
pub open spec fn tilde_outcome(raw: Seq<char>, r: Seq<char>) -> bool {
    if tilde_applies(raw) {
        r == raw || (r.len() >= raw.len() - 1 && r.subrange(r.len() - (raw.len() - 1), r.len() as int)
            == raw.drop_first())
    } else {
        r == raw
    }
}

/// shellexpand's `tilde`.  Which home directory replaces the `~` depends on
/// the environment, so only the shape of the outcome is stated.
#[verifier::external_body]
pub(crate) fn tilde_expand(raw: &str) -> (r: String)
    ensures
        tilde_outcome(raw@, r@),
{
    shellexpand::tilde(raw).to_string()
}

/// The home directory dirs' `home_dir` reports, as text.  Nothing is stated
/// of it: it depends on the environment.
#[verifier::external_body]
pub(crate) fn home_dir() -> Option<String> {
    dirs::home_dir().map(|p| p.to_string_lossy().into_owned())
}

/// Whether `out` is what resolving `raw` against `base` can give: the
/// tilde-expanded text, joined to the base unless it is absolute.
pub open spec fn resolves_to(base: Seq<char>, raw: Seq<char>, out: Seq<char>) -> bool {
    exists|e: Seq<char>| tilde_outcome(raw, e) && out == path_join(base, e)
}

/// Resolves a configured path: expands `~`, and joins a relative result to
/// the base directory.
pub fn resolve_path(base: &str, raw: &str) -> (r: String)
    ensures
        resolves_to(base@, raw@, r@),
        !tilde_applies(raw@) ==> r@ == path_join(base@, raw@),
{
    let expanded = tilde_expand(raw);
    join_path(base, expanded.as_str())
}

/// A path text without leading separators and `.` components, as
/// `Components::as_path` trims the front.
pub open spec fn trim_left_components(s: Seq<char>) -> Seq<char>
    decreases s.len(),
{
    if s.len() > 0 && s[0] == '/' {
        trim_left_components(s.drop_first())
    } else if s == seq!['.'] {
        Seq::empty()
    } else if s.len() >= 2 && s[0] == '.' && s[1] == '/' {
        trim_left_components(s.drop_first())
    } else {
        s
    }
}

/// A path text without trailing separators and `.` components, as
/// `Components::as_path` trims the back.
pub open spec fn trim_right_components(s: Seq<char>) -> Seq<char>
    decreases s.len(),
{
    if s.len() > 0 && s.last() == '/' {
        trim_right_components(s.drop_last())
    } else if s == seq!['.'] {
        Seq::empty()
    } else if s.len() >= 2 && s.last() == '.' && s[s.len() - 2] == '/' {
        trim_right_components(s.drop_last())
    } else {
        s
    }
}

/// What `Path::strip_prefix("~")` leaves of a path: for `~` or a path whose
/// first component is `~`, the rest of the path; `None` otherwise.
pub open spec fn strip_tilde(p: Seq<char>) -> Option<Seq<char>> {
    if tilde_applies(p) {
        Some(trim_right_components(trim_left_components(p.drop_first())))
    } else {
        None
    }
}

/// `~` or `~/...` with the home directory in place of `~`, given the home
/// directory; any other path unchanged.
pub open spec fn tilde_expanded_with(p: Seq<char>, home: Option<Seq<char>>) -> Seq<char> {
    match (strip_tilde(p), home) {
        (Some(rest), Some(h)) => path_join(h, rest),
        _ => p,
    }
}

fn trim_components(s: &[char]) -> (r: Vec<char>)
    ensures
        r@ == trim_right_components(trim_left_components(s@)),
{
    let n = s.len();
    let mut lo: usize = 0;
    assert(s@.subrange(0, n as int) =~= s@);
    while lo < n && (s[lo] == '/' || (n - lo >= 2 && s[lo] == '.' && s[lo + 1] == '/'))
        invariant
            lo <= n == s@.len(),
            trim_left_components(s@) == trim_left_components(s@.subrange(lo as int, n as int)),
        decreases n - lo,
    {
        let ghost rest = s@.subrange(lo as int, n as int);
        assert(rest.drop_first() =~= s@.subrange(lo + 1, n as int));
        lo = lo + 1;
    }
    let mut hi: usize = n;
    let ghost left = trim_left_components(s@);
    if n - lo == 1 && s[lo] == '.' {
        assert(s@.subrange(lo as int, n as int) =~= seq!['.']);
        hi = lo;
        assert(s@.subrange(lo as int, hi as int) =~= Seq::<char>::empty());
    } else {
        proof {
            let rest = s@.subrange(lo as int, n as int);
            if rest == seq!['.'] {
                assert(rest.len() == 1);
                assert(rest[0] == s@[lo as int]);
            }
            assert(left == rest);
        }
    }
    assert(left == s@.subrange(lo as int, hi as int));
    while hi > lo && (s[hi - 1] == '/' || (hi - lo == 1 && s[lo] == '.') || (hi - lo >= 2 && s[hi - 1] == '.' && s[hi - 2] == '/'))
        invariant
            lo <= hi <= n == s@.len(),
            trim_right_components(left) == trim_right_components(s@.subrange(lo as int, hi as int)),
        decreases hi - lo,
    {
        let ghost cur = s@.subrange(lo as int, hi as int);
        if s[hi - 1] == '/' {
            assert(cur.drop_last() =~= s@.subrange(lo as int, hi - 1));
            hi = hi - 1;
        } else if hi - lo == 1 {
            assert(cur =~= seq!['.']);
            hi = lo;
            assert(s@.subrange(lo as int, hi as int) =~= Seq::<char>::empty());
        } else {
            assert(cur.drop_last() =~= s@.subrange(lo as int, hi - 1));
            hi = hi - 1;
        }
    }
    proof {
        let cur = s@.subrange(lo as int, hi as int);
        if cur == seq!['.'] {
            assert(cur[0] == s@[lo as int]);
        }
    }
    let mut r: Vec<char> = Vec::new();
    let mut i = lo;
    while i < hi
        invariant
            lo <= i <= hi <= n == s@.len(),
            r@ == s@.subrange(lo as int, i as int),
        decreases hi - i,
    {
        r.push(s[i]);
        i = i + 1;
    }
    r
}

/// Expands a leading `~` component with a given home directory.
pub fn expand_tilde_with(path: &str, home: Option<String>) -> (r: String)
    ensures
        r@ == tilde_expanded_with(path@, match home { Some(h) => Some(h@), None => None }),
{
    let pc = chars_of(path);
    let applies = pc.len() > 0 && pc[0] == '~' && (pc.len() == 1 || pc[1] == '/');
    match home {
        Some(h) => {
            if applies {
                let mut after: Vec<char> = Vec::new();
                let mut i: usize = 1;
                while i < pc.len()
                    invariant
                        1 <= i <= pc@.len(),
                        after@ == pc@.subrange(1, i as int),
                    decreases pc@.len() - i,
                {
                    after.push(pc[i]);
                    i = i + 1;
                }
                assert(after@ =~= pc@.drop_first());
                let rest = trim_components(after.as_slice());
                let rest_s = string_of(rest.as_slice());
                join_path(h.as_str(), rest_s.as_str())
            } else {
                string_of(pc.as_slice())
            }
        },
        None => string_of(pc.as_slice()),
    }
}

/// Expands a leading `~` component with the user's home directory, when one
/// is known; any other path is returned unchanged.
pub fn expand_tilde(path: &str) -> (r: String)
    ensures
        exists|home: Option<Seq<char>>| r@ == tilde_expanded_with(path@, home),
        strip_tilde(path@) is None ==> r@ == path@,
{
    let home = home_dir();
    let r = expand_tilde_with(path, home);
    assert(r@ == tilde_expanded_with(path@, match home { Some(h) => Some(h@), None => None }));
    r
}

/// The permission bits of a file mode (`mode & 0o777`), and whether they
/// are exactly the required ones.
pub fn permissions_match(mode: u32, required: u32) -> (r: (u32, bool))
    ensures
        r.0 == mode & 0o777u32,
        r.0 < 512,
        r.1 == (r.0 == required),
{
    let bits = mode & 0o777u32;
    assert(mode & 0o777u32 <= 0o777u32) by (bit_vector);
    (bits, bits == required)
}

/// Fills an empty text with a default.
pub fn fill_if_empty(target: &mut String, source: &str)
    ensures
        old(target)@.len() == 0 ==> final(target)@ == source@,
        old(target)@.len() != 0 ==> final(target)@ == old(target)@,
{
    if target.as_str().is_empty() {
        let mut s = String::new();
        push_str(&mut s, source);
        *target = s;
    }
}

/// Fills an empty text with an optional default, when there is one.
pub fn fill_if_empty_opt(target: &mut String, source: &Option<String>)
    ensures
        old(target)@.len() == 0 && source is Some ==> final(target)@ == source->Some_0@,
        old(target)@.len() != 0 || source is None ==> final(target)@ == old(target)@,
{
    if target.as_str().is_empty() {
        if let Some(val) = source {
            *target = val.clone();
        }
    }
}

} // verus!
