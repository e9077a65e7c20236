//! Text helpers for the dispatcher: prefix and suffix tests, the token scan
//! that the pack-registration command needs, and string building.

use vstd::prelude::*;
use vstd::string::{StrSliceExecFns, StringExecFns};

verus! {

/// `p` is a prefix of `s`.
pub open spec fn has_prefix(s: Seq<char>, p: Seq<char>) -> bool {
    s.len() >= p.len() && s.subrange(0, p.len() as int) == p
}

/// `p` is a suffix of `s`.
pub open spec fn has_suffix(s: Seq<char>, p: Seq<char>) -> bool {
    s.len() >= p.len() && s.subrange(s.len() - p.len(), s.len() as int) == p
}

/// What the character-class test of the standard library holds of a character.
pub uninterp spec fn is_whitespace_char(c: char) -> bool;

/// Relies on char::is_whitespace: the result depends on the character alone.
#[verifier::external_body]
fn char_is_whitespace(c: char) -> (r: bool)
    ensures
        r == is_whitespace_char(c),
{
    c.is_whitespace()
}

/// The characters of a string, in order.
pub fn chars_of(s: &str) -> (r: Vec<char>)
    ensures
        r@ == s@,
{
    let n: usize = s.unicode_len();
    let mut out: Vec<char> = Vec::new();
    let mut i: usize = 0;
    while i < n
        invariant
            i <= n,
            n == s@.len(),
            out@ == s@.subrange(0, i as int),
        decreases n - i,
    {
        let c = s.get_char(i);
        out.push(c);
        proof {
            assert(out@ =~= s@.subrange(0, i + 1 as int));
        }
        i = i + 1;
    }
    proof {
        assert(s@.subrange(0, n as int) =~= s@);
    }
    out
}

/// Whether `s` starts with `prefix`.
pub fn str_starts_with(s: &str, prefix: &str) -> (r: bool)
    ensures
        r == has_prefix(s@, prefix@),
{
    let n: usize = prefix.unicode_len();
    if s.unicode_len() < n {
        return false;
    }
    let mut i: usize = 0;
    while i < n
        invariant
            i <= n,
            n == prefix@.len(),
            s@.len() >= n,
            forall|j: int| 0 <= j < i ==> s@[j] == prefix@[j],
        decreases n - i,
    {
        if s.get_char(i) != prefix.get_char(i) {
            proof {
                assert(s@.subrange(0, n as int)[i as int] == s@[i as int]);
            }
            return false;
        }
        i = i + 1;
    }
    proof {
        assert(s@.subrange(0, n as int) =~= prefix@);
    }
    true
}

/// Whether `s` ends with `suffix`.
pub fn str_ends_with(s: &str, suffix: &str) -> (r: bool)
    ensures
        r == has_suffix(s@, suffix@),
{
    let n: usize = suffix.unicode_len();
    let sn: usize = s.unicode_len();
    if sn < n {
        return false;
    }
    let off: usize = sn - n;
    let mut i: usize = 0;
    while i < n
        invariant
            i <= n,
            n == suffix@.len(),
            sn == s@.len(),
            off == sn - n,
            forall|j: int| 0 <= j < i ==> s@[off + j] == suffix@[j],
        decreases n - i,
    {
        if s.get_char(off + i) != suffix.get_char(i) {
            proof {
                assert(s@.subrange(off as int, sn as int)[i as int] == s@[off + i]);
            }
            return false;
        }
        i = i + 1;
    }
    proof {
        assert(s@.subrange(off as int, sn as int) =~= suffix@);
    }
    true
}

/// Whether the two strings hold the same characters.
pub fn str_eq(s: &str, other: &str) -> (r: bool)
    ensures
        r == (s@ == other@),
{
    let a: usize = s.unicode_len();
    let b: usize = other.unicode_len();
    if a != b {
        return false;
    }
    proof {
        assert(s@.subrange(0, s@.len() as int) =~= s@);
    }
    str_starts_with(s, other)
}

/// The two strings, one after the other.
pub fn concat_str(a: &str, b: &str) -> (r: String)
    ensures
        r@ == a@ + b@,
{
    let s = String::from_str(a);
    s.concat(b)
}

/// The position after every repetition of `p` at the front of `s` from `off`.
pub open spec fn after_prefixes(s: Seq<char>, p: Seq<char>, off: int) -> int
    decreases s.len() - off,
{
    if p.len() > 0 && 0 <= off && off + p.len() <= s.len() && s.subrange(off, off + p.len()) == p {
        after_prefixes(s, p, off + p.len())
    } else {
        off
    }
}

/// The first position at or after `i` that holds no whitespace character.
pub open spec fn skip_ws(s: Seq<char>, i: int) -> int
    decreases s.len() - i,
{
    if 0 <= i < s.len() && is_whitespace_char(s[i]) {
        skip_ws(s, i + 1)
    } else {
        i
    }
}

/// The first position at or after `i` that holds a whitespace character, or
/// the end.
pub open spec fn scan_token(s: Seq<char>, i: int) -> int
    decreases s.len() - i,
{
    if 0 <= i < s.len() && !is_whitespace_char(s[i]) {
        scan_token(s, i + 1)
    } else {
        i
    }
}

/// The first whitespace-separated token of `s` after stripping every
/// repetition of `p` from the front, if there is one.
pub open spec fn first_token_after(s: Seq<char>, p: Seq<char>) -> Option<Seq<char>> {
    let off = after_prefixes(s, p, 0);
    let a = skip_ws(s, off);
    let b = scan_token(s, a);
    if a == b {
        None
    } else {
        Some(s.subrange(a, b))
    }
}

fn region_matches(chars: &Vec<char>, pos: usize, pat: &Vec<char>) -> (r: bool)
    requires
        pos + pat@.len() <= chars@.len(),
    ensures
        r == (chars@.subrange(pos as int, pos as int + pat@.len() as int) == pat@),
{
    let n: usize = pat.len();
    let m: usize = chars.len();
    let mut i: usize = 0;
    while i < n
        invariant
            i <= n,
            n == pat@.len(),
            m == chars@.len(),
            pos + n <= m,
            forall|j: int| 0 <= j < i ==> chars@[pos + j] == pat@[j],
        decreases n - i,
    {
        if chars[pos + i] != pat[i] {
            proof {
                assert(chars@.subrange(pos as int, pos as int + n as int)[i as int] == chars@[pos
                    + i]);
            }
            return false;
        }
        i = i + 1;
    }
    proof {
        assert(chars@.subrange(pos as int, pos as int + n as int) =~= pat@);
    }
    true
}

/// The first whitespace-separated token of `text` after stripping every
/// repetition of `prefix` from the front.
pub fn token_after_prefixes(text: &str, prefix: &str) -> (r: Option<String>)
    ensures
        match r {
            Some(t) => first_token_after(text@, prefix@) == Some(t@),
            None => first_token_after(text@, prefix@) is None,
        },
{
    let chars: Vec<char> = chars_of(text);
    let pat: Vec<char> = chars_of(prefix);
    let n: usize = chars.len();
    let plen: usize = pat.len();
    let mut pos: usize = 0;
    loop
        invariant
            pos <= n,
            n == text@.len(),
            plen == prefix@.len(),
            chars@ == text@,
            pat@ == prefix@,
            after_prefixes(text@, prefix@, 0) == after_prefixes(text@, prefix@, pos as int),
        ensures
            pos <= n,
            pos as int == after_prefixes(text@, prefix@, 0),
        decreases n - pos,
    {
        if plen == 0 || plen > n - pos {
            break;
        }
        if !region_matches(&chars, pos, &pat) {
            break;
        }
        pos = pos + plen;
    }
    while pos < n
        invariant_except_break
            pos <= n,
            n == text@.len(),
            chars@ == text@,
            skip_ws(text@, after_prefixes(text@, prefix@, 0)) == skip_ws(text@, pos as int),
        ensures
            pos <= n,
            pos as int == skip_ws(text@, after_prefixes(text@, prefix@, 0)),
        decreases n - pos,
    {
        if !char_is_whitespace(chars[pos]) {
            break;
        }
        pos = pos + 1;
    }
    let start: usize = pos;
    while pos < n
        invariant_except_break
            start <= pos <= n,
            n == text@.len(),
            chars@ == text@,
            scan_token(text@, start as int) == scan_token(text@, pos as int),
        ensures
            start <= pos <= n,
            pos as int == scan_token(text@, start as int),
        decreases n - pos,
    {
        if char_is_whitespace(chars[pos]) {
            break;
        }
        pos = pos + 1;
    }
    if start == pos {
        None
    } else {
        let tok = s_substring(text, start, pos);
        Some(tok)
    }
}

fn s_substring(s: &str, from: usize, to: usize) -> (r: String)
    requires
        from <= to <= s@.len(),
    ensures
        r@ == s@.subrange(from as int, to as int),
{
    let sub: &str = s.substring_char(from, to);
    String::from_str(sub)
}

} // verus!
