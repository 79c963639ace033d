//! Character-level helpers: building strings, decimal rendering.
use vstd::prelude::*;

verus! {

/// The character of a decimal digit `d` (0..=9).
pub open spec fn digit_char(d: int) -> char {
    (48 + d) as char
}

/// Decimal rendering of a natural number, without sign or padding.
pub open spec fn dec(n: nat) -> Seq<char>
    decreases n,
{
    if n < 10 {
        seq![digit_char(n as int)]
    } else {
        dec(n / 10).push(digit_char((n % 10) as int))
    }
}

/// `k` copies of the character `c`.
pub open spec fn repeat(c: char, k: nat) -> Seq<char>
    decreases k,
{
    if k == 0 {
        Seq::empty()
    } else {
        repeat(c, (k - 1) as nat).push(c)
    }
}

/// Decimal rendering left-padded with zeros to at least `width` characters,
/// as the format `{:0width$}` renders an unsigned integer.
pub open spec fn dec_zero_padded(n: nat, width: nat) -> Seq<char> {
    let d = dec(n);
    if d.len() < width {
        repeat('0', (width - d.len()) as nat) + d
    } else {
        d
    }
}

/// Appends one character to a string.
#[verifier::external_body]
pub(crate) fn push_char(s: &mut String, c: char)
    ensures
        final(s)@ == old(s)@.push(c),
{
    s.push(c);
}

/// Appends a string slice to a string.
pub fn push_str(s: &mut String, t: &str)
    ensures
        final(s)@ == old(s)@ + t@,
{
    s.append(t);
}

/// The characters of a string slice.
pub fn chars_of(s: &str) -> (v: Vec<char>)
    ensures
        v@ == s@,
{
    let n = s.unicode_len();
    let mut v: Vec<char> = Vec::new();
    let mut i: usize = 0;
    while i < n
        invariant
            n == s@.len(),
            i <= n,
            v@ == s@.subrange(0, i as int),
        decreases n - i,
    {
        let c = s.get_char(i);
        v.push(c);
        i = i + 1;
    }
    v
}

/// A string holding exactly the given characters.
pub fn string_of(v: &[char]) -> (s: String)
    ensures
        s@ == v@,
{
    let mut s = String::new();
    let mut i: usize = 0;
    while i < v.len()
        invariant
            i <= v@.len(),
            s@ == v@.subrange(0, i as int),
        decreases v@.len() - i,
    {
        push_char(&mut s, v[i]);
        i = i + 1;
    }
    s
}

/// The digit character of `d < 10`.
pub fn digit(d: u64) -> (c: char)
    requires
        d < 10,
    ensures
        c == digit_char(d as int),
{
    let b: u8 = 48u8 + (d as u8);
    b as char
}

/// Appends the decimal rendering of `n`.
pub fn push_dec(s: &mut String, n: u64)
    ensures
        final(s)@ == old(s)@ + dec(n as nat),
    decreases n,
{
    if n >= 10 {
        push_dec(s, n / 10);
    }
    let c = digit(n % 10);
    push_char(s, c);
    proof {
        assert(old(s)@ + dec(n as nat) =~= old(s)@ + (if n >= 10 { dec((n / 10) as nat) } else { Seq::empty() }).push(c));
    }
}

/// Length of the decimal rendering of `n`.
pub fn dec_len(n: u64) -> (r: u64)
    ensures
        r == dec(n as nat).len(),
        1 <= r <= n + 1,
    decreases n,
{
    if n < 10 {
        1
    } else {
        let r = dec_len(n / 10);
        r + 1
    }
}

/// Appends `k` zeros.
pub fn push_zeros(s: &mut String, k: usize)
    ensures
        final(s)@ == old(s)@ + repeat('0', k as nat),
    decreases k,
{
    if k > 0 {
        push_zeros(s, k - 1);
        push_char(s, '0');
    }
}

/// Appends the decimal rendering of `n`, zero-padded to `width` characters.
pub fn push_dec_padded(s: &mut String, n: u64, width: usize)
    ensures
        final(s)@ == old(s)@ + dec_zero_padded(n as nat, width as nat),
{
    let len = dec_len(n);
    if len < width as u64 {
        push_zeros(s, width - (len as usize));
    }
    push_dec(s, n);
    assert(s@ =~= old(s)@ + dec_zero_padded(n as nat, width as nat));
}

/// Whether two character sequences are equal.
pub fn chars_eq(a: &[char], b: &[char]) -> (r: bool)
    ensures
        r == (a@ == b@),
{
    if a.len() != b.len() {
        return false;
    }
    let mut i: usize = 0;
    while i < a.len()
        invariant
            a@.len() == b@.len(),
            i <= a@.len(),
            forall|j: int| 0 <= j < i ==> a@[j] == b@[j],
        decreases a@.len() - i,
    {
        if a[i] != b[i] {
            return false;
        }
        i = i + 1;
    }
    assert(a@ =~= b@);
    true
}

/// Whether two string slices hold the same characters.
pub fn str_eq(a: &str, b: &str) -> (r: bool)
    ensures
        r == (a@ == b@),
{
    let va = chars_of(a);
    let vb = chars_of(b);
    chars_eq(va.as_slice(), vb.as_slice())
}

} // verus!

verus! {

/// The lowercase hexadecimal digit of `v < 16`.
pub open spec fn hex_digit(v: int) -> char {
    if v < 10 {
        digit_char(v)
    } else {
        (87 + v) as char
    }
}

/// How serde_json escapes one character inside a JSON string.
pub open spec fn json_escape_char(c: char) -> Seq<char> {
    if c == '"' {
        seq!['\\', '"']
    } else if c == '\\' {
        seq!['\\', '\\']
    } else if c == '\x08' {
        seq!['\\', 'b']
    } else if c == '\t' {
        seq!['\\', 't']
    } else if c == '\n' {
        seq!['\\', 'n']
    } else if c == '\x0c' {
        seq!['\\', 'f']
    } else if c == '\r' {
        seq!['\\', 'r']
    } else if (c as int) < 32 {
        seq!['\\', 'u', '0', '0', hex_digit((c as int) / 16), hex_digit((c as int) % 16)]
    } else {
        seq![c]
    }
}

/// The escaped body of a JSON string.
pub open spec fn json_escape(s: Seq<char>) -> Seq<char>
    decreases s.len(),
{
    if s.len() == 0 {
        Seq::empty()
    } else {
        json_escape(s.drop_last()) + json_escape_char(s.last())
    }
}

/// A JSON string literal holding `s`, as serde_json writes it.
pub open spec fn json_string(s: Seq<char>) -> Seq<char> {
    seq!['"'] + json_escape(s) + seq!['"']
}

fn hex(v: u32) -> (c: char)
    requires
        v < 16,
    ensures
        c == hex_digit(v as int),
{
    if v < 10 {
        let b: u8 = 48u8 + (v as u8);
        b as char
    } else {
        let b: u8 = 87u8 + (v as u8);
        b as char
    }
}

/// Appends the JSON escape of one character.
pub fn push_json_escaped_char(s: &mut String, c: char)
    ensures
        final(s)@ == old(s)@ + json_escape_char(c),
{
    let ghost s0 = s@;
    if c == '"' {
        push_char(s, '\\');
        push_char(s, '"');
    } else if c == '\\' {
        push_char(s, '\\');
        push_char(s, '\\');
    } else if c == '\x08' {
        push_char(s, '\\');
        push_char(s, 'b');
    } else if c == '\t' {
        push_char(s, '\\');
        push_char(s, 't');
    } else if c == '\n' {
        push_char(s, '\\');
        push_char(s, 'n');
    } else if c == '\x0c' {
        push_char(s, '\\');
        push_char(s, 'f');
    } else if c == '\r' {
        push_char(s, '\\');
        push_char(s, 'r');
    } else if (c as u32) < 32 {
        let v = c as u32;
        push_char(s, '\\');
        push_char(s, 'u');
        push_char(s, '0');
        push_char(s, '0');
        push_char(s, hex(v / 16));
        push_char(s, hex(v % 16));
    } else {
        push_char(s, c);
    }
    assert(s@ =~= s0 + json_escape_char(c));
}

/// Appends `t` as a JSON string literal, escaped as serde_json escapes it.
pub fn push_json_string(s: &mut String, t: &str)
    ensures
        final(s)@ == old(s)@ + json_string(t@),
{
    let cs = chars_of(t);
    let ghost s0 = s@;
    push_char(s, '"');
    let mut i: usize = 0;
    while i < cs.len()
        invariant
            cs@ == t@,
            i <= cs@.len(),
            s@ == s0 + seq!['"'] + json_escape(cs@.subrange(0, i as int)),
        decreases cs@.len() - i,
    {
        let ghost prev = s@;
        push_json_escaped_char(s, cs[i]);
        proof {
            assert(cs@.subrange(0, i + 1).drop_last() =~= cs@.subrange(0, i as int));
            assert(s@ =~= s0 + seq!['"'] + json_escape(cs@.subrange(0, i + 1)));
        }
        i = i + 1;
    }
    push_char(s, '"');
    assert(cs@.subrange(0, cs@.len() as int) =~= cs@);
    assert(s@ =~= s0 + json_string(t@));
}

} // verus!

verus! {

/// Whether a character has the Unicode `White_Space` property (what
/// `char::is_whitespace` tests): the tab, line feed, vertical tab, form
/// feed, carriage return, space, next line, no-break space, ogham space
/// mark, the spaces U+2000 to U+200A, the line and paragraph separators,
/// the narrow no-break space, the medium mathematical space and the
/// ideographic space.
pub open spec fn unicode_white_space(c: char) -> bool {
    let u = c as int;
    ||| 0x09 <= u <= 0x0d
    ||| u == 0x20
    ||| u == 0x85
    ||| u == 0xa0
    ||| u == 0x1680
    ||| 0x2000 <= u <= 0x200a
    ||| u == 0x2028
    ||| u == 0x2029
    ||| u == 0x202f
    ||| u == 0x205f
    ||| u == 0x3000
}

/// `char::is_whitespace`.
#[verifier::external_body]
pub(crate) fn is_whitespace(c: char) -> (r: bool)
    ensures
        r == unicode_white_space(c),
{
    c.is_whitespace()
}

/// A text without its leading white space.
pub open spec fn trim_start(s: Seq<char>) -> Seq<char>
    decreases s.len(),
{
    if s.len() > 0 && unicode_white_space(s[0]) {
        trim_start(s.drop_first())
    } else {
        s
    }
}

/// A text without its trailing white space.
pub open spec fn trim_end(s: Seq<char>) -> Seq<char>
    decreases s.len(),
{
    if s.len() > 0 && unicode_white_space(s.last()) {
        trim_end(s.drop_last())
    } else {
        s
    }
}

/// A text without leading and trailing white space (`str::trim`).
pub open spec fn trim(s: Seq<char>) -> Seq<char> {
    trim_end(trim_start(s))
}

/// `str::trim` on a character sequence.
pub fn trim_chars(s: &[char]) -> (r: Vec<char>)
    ensures
        r@ == trim(s@),
{
    let n = s.len();
    let mut lo: usize = 0;
    assert(s@.subrange(0, n as int) =~= s@);
    while lo < n && is_whitespace(s[lo])
        invariant
            lo <= n == s@.len(),
            trim_start(s@) == trim_start(s@.subrange(lo as int, n as int)),
        decreases n - lo,
    {
        assert(s@.subrange(lo as int, n as int).drop_first() =~= s@.subrange(lo + 1, n as int));
        lo = lo + 1;
    }
    proof {
        assert(s@.subrange(0, n as int) =~= s@);
    }
    let mut hi: usize = n;
    assert(trim_start(s@) == s@.subrange(lo as int, n as int));
    while hi > lo && is_whitespace(s[hi - 1])
        invariant
            lo <= hi <= n == s@.len(),
            trim_start(s@) == s@.subrange(lo as int, n as int),
            trim(s@) == trim_end(s@.subrange(lo as int, hi as int)),
        decreases hi - lo,
    {
        assert(s@.subrange(lo as int, hi as int).drop_last() =~= s@.subrange(lo as int, hi - 1));
        hi = hi - 1;
    }
    let mut r: Vec<char> = Vec::new();
    let mut i: usize = lo;
    while i < hi
        invariant
            lo <= i <= hi <= n == s@.len(),
            r@ == s@.subrange(lo as int, i as int),
        decreases hi - i,
    {
        r.push(s[i]);
        i = i + 1;
    }
    r
}

} // verus!

verus! {

/// The ASCII lowercase of a character.
pub open spec fn ascii_lower(c: char) -> char {
    if 'A' <= c <= 'Z' {
        ((c as int) + 32) as char
    } else {
        c
    }
}

/// Whether every character is ASCII.
pub open spec fn all_ascii(s: Seq<char>) -> bool {
    forall|i: int| 0 <= i < s.len() ==> (#[trigger] s[i] as int) < 128
}

/// The text `str::to_lowercase` gives.
pub uninterp spec fn unicode_lowercase(s: Seq<char>) -> Seq<char>;

/// `str::to_lowercase`.  On ASCII text it lowers `A`..`Z` and keeps every
/// other character.
#[verifier::external_body]
pub(crate) fn to_lowercase(s: &str) -> (r: String)
    ensures
        r@ == unicode_lowercase(s@),
        all_ascii(s@) ==> r@ == s@.map_values(|c: char| ascii_lower(c)),
{
    s.to_lowercase()
}

} // verus!

verus! {

proof fn lemma_trim_start_fixed(s: Seq<char>)
    ensures
        trim_start(s).len() == 0 || !unicode_white_space(trim_start(s)[0]),
        trim_start(trim_start(s)) == trim_start(s),
    decreases s.len(),
{
    if s.len() > 0 && unicode_white_space(s[0]) {
        lemma_trim_start_fixed(s.drop_first());
    }
}

proof fn lemma_trim_end_fixed(s: Seq<char>)
    ensures
        trim_end(trim_end(s)) == trim_end(s),
        trim_end(s).len() <= s.len(),
        trim_end(s) == s.subrange(0, trim_end(s).len() as int),
    decreases s.len(),
{
    if s.len() > 0 && unicode_white_space(s.last()) {
        lemma_trim_end_fixed(s.drop_last());
    } else {
        assert(s.subrange(0, s.len() as int) =~= s);
    }
}

/// Trimming twice is trimming once.
pub proof fn lemma_trim_idempotent(s: Seq<char>)
    ensures
        trim(trim(s)) == trim(s),
{
    let x = trim_start(s);
    lemma_trim_start_fixed(s);
    lemma_trim_end_fixed(x);
    let y = trim_end(x);
    if y.len() > 0 {
        assert(y[0] == x[0]);
    }
    assert(trim_start(y) == y);
}

} // verus!
