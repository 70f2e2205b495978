use vstd::prelude::*;
use vstd::string::*;

verus! {

/// The whitespace that surrounds keys and values in a manifest line.
pub open spec fn is_blank(c: char) -> bool {
    c == ' ' || c == '\t' || c == '\r' || c == '\n' || c == '\x0B' || c == '\x0C'
}

/// First index in `[lo, hi)` holding `c`, or `hi`.
pub open spec fn find(s: Seq<char>, lo: int, hi: int, c: char) -> int
    decreases hi - lo,
{
    if lo < hi && s[lo] != c {
        find(s, lo + 1, hi, c)
    } else {
        lo
    }
}

/// Start of `[lo, hi)` once leading blanks are skipped.
pub open spec fn trim_lo(s: Seq<char>, lo: int, hi: int) -> int
    decreases hi - lo,
{
    if lo < hi && is_blank(s[lo]) {
        trim_lo(s, lo + 1, hi)
    } else {
        lo
    }
}

/// End of `[lo, hi)` once trailing blanks are dropped.
pub open spec fn trim_hi(s: Seq<char>, lo: int, hi: int) -> int
    decreases hi - lo,
{
    if lo < hi && is_blank(s[hi - 1]) {
        trim_hi(s, lo, hi - 1)
    } else {
        hi
    }
}

/// Start of `[lo, hi)` once every leading `q` is skipped.
pub open spec fn strip_lo(s: Seq<char>, lo: int, hi: int, q: char) -> int
    decreases hi - lo,
{
    if lo < hi && s[lo] == q {
        strip_lo(s, lo + 1, hi, q)
    } else {
        lo
    }
}

/// End of `[lo, hi)` once every trailing `q` is dropped.
pub open spec fn strip_hi(s: Seq<char>, lo: int, hi: int, q: char) -> int
    decreases hi - lo,
{
    if lo < hi && s[hi - 1] == q {
        strip_hi(s, lo, hi - 1, q)
    } else {
        hi
    }
}

pub open spec fn name_key() -> Seq<char> {
    seq!['n', 'a', 'm', 'e']
}

/// The value of the line `[lo, hi)` if it reads `name = <value>`: the key,
/// blanks trimmed, is exactly `name`; the value is what follows the first
/// `=`, blanks trimmed, then double quotes, then single quotes stripped from
/// both ends.
pub open spec fn line_name(s: Seq<char>, lo: int, hi: int) -> Option<Seq<char>> {
    let eq = find(s, lo, hi, '=');
    if eq < hi && s.subrange(trim_lo(s, lo, eq), trim_hi(s, trim_lo(s, lo, eq), eq)) == name_key() {
        let v_lo = trim_lo(s, eq + 1, hi);
        let v_hi = trim_hi(s, v_lo, hi);
        let d_lo = strip_lo(s, v_lo, v_hi, '"');
        let d_hi = strip_hi(s, d_lo, v_hi, '"');
        let q_lo = strip_lo(s, d_lo, d_hi, '\'');
        let q_hi = strip_hi(s, q_lo, d_hi, '\'');
        Some(s.subrange(q_lo, q_hi))
    } else {
        None
    }
}

pub open spec fn package_header() -> Seq<char> {
    seq!['[', 'p', 'a', 'c', 'k', 'a', 'g', 'e', ']']
}

/// Whether line `[lo, hi)` is a section header: its first non-blank char is `[`.
pub open spec fn is_header(s: Seq<char>, lo: int, hi: int) -> bool {
    trim_lo(s, lo, hi) < hi && s[trim_lo(s, lo, hi)] == '['
}

/// Whether line `[lo, hi)`, blanks trimmed, reads `[package]`.
pub open spec fn is_package_header(s: Seq<char>, lo: int, hi: int) -> bool {
    s.subrange(trim_lo(s, lo, hi), trim_hi(s, trim_lo(s, lo, hi), hi)) == package_header()
}

/// The project name given by the first `name` line of the `[package]`
/// section at or after `start`, where `in_package` tells whether the line at
/// `start` stands in that section.
pub open spec fn name_from(s: Seq<char>, start: int, in_package: bool) -> Option<Seq<char>>
    decreases s.len() - start,
{
    let end = find(s, start, s.len() as int, '\n');
    let header = is_header(s, start, end);
    let found = if !header && in_package {
        line_name(s, start, end)
    } else {
        None
    };
    match found {
        Some(v) => Some(v),
        None => if start <= end < s.len() {
            name_from(
                s,
                end + 1,
                if header {
                    is_package_header(s, start, end)
                } else {
                    in_package
                },
            )
        } else {
            None
        },
    }
}

/// The project name that a manifest's text declares, if any: the value of
/// the first `name` key in its `[package]` section.
pub open spec fn manifest_name(s: Seq<char>) -> Option<Seq<char>> {
    name_from(s, 0, false)
}

fn is_blank_char(c: char) -> (r: bool)
    ensures
        r == is_blank(c),
{
    c == ' ' || c == '\t' || c == '\r' || c == '\n' || c == '\x0B' || c == '\x0C'
}

fn find_char(s: &str, lo: usize, hi: usize, c: char) -> (r: usize)
    requires
        lo <= hi <= s@.len(),
    ensures
        r == find(s@, lo as int, hi as int, c),
        lo <= r <= hi,
{
    let mut i = lo;
    while i < hi && s.get_char(i) != c
        invariant
            lo <= i <= hi <= s@.len(),
            find(s@, i as int, hi as int, c) == find(s@, lo as int, hi as int, c),
        decreases hi - i,
    {
        i = i + 1;
    }
    i
}

fn trim_start(s: &str, lo: usize, hi: usize) -> (r: usize)
    requires
        lo <= hi <= s@.len(),
    ensures
        r == trim_lo(s@, lo as int, hi as int),
        lo <= r <= hi,
{
    let mut i = lo;
    while i < hi && is_blank_char(s.get_char(i))
        invariant
            lo <= i <= hi <= s@.len(),
            trim_lo(s@, i as int, hi as int) == trim_lo(s@, lo as int, hi as int),
        decreases hi - i,
    {
        i = i + 1;
    }
    i
}

fn trim_end(s: &str, lo: usize, hi: usize) -> (r: usize)
    requires
        lo <= hi <= s@.len(),
    ensures
        r == trim_hi(s@, lo as int, hi as int),
        lo <= r <= hi,
{
    let mut j = hi;
    while lo < j && is_blank_char(s.get_char(j - 1))
        invariant
            lo <= j <= hi <= s@.len(),
            trim_hi(s@, lo as int, j as int) == trim_hi(s@, lo as int, hi as int),
        decreases j - lo,
    {
        j = j - 1;
    }
    j
}

fn strip_start(s: &str, lo: usize, hi: usize, q: char) -> (r: usize)
    requires
        lo <= hi <= s@.len(),
    ensures
        r == strip_lo(s@, lo as int, hi as int, q),
        lo <= r <= hi,
{
    let mut i = lo;
    while i < hi && s.get_char(i) == q
        invariant
            lo <= i <= hi <= s@.len(),
            strip_lo(s@, i as int, hi as int, q) == strip_lo(s@, lo as int, hi as int, q),
        decreases hi - i,
    {
        i = i + 1;
    }
    i
}

fn strip_end(s: &str, lo: usize, hi: usize, q: char) -> (r: usize)
    requires
        lo <= hi <= s@.len(),
    ensures
        r == strip_hi(s@, lo as int, hi as int, q),
        lo <= r <= hi,
{
    let mut j = hi;
    while lo < j && s.get_char(j - 1) == q
        invariant
            lo <= j <= hi <= s@.len(),
            strip_hi(s@, lo as int, j as int, q) == strip_hi(s@, lo as int, hi as int, q),
        decreases j - lo,
    {
        j = j - 1;
    }
    j
}

/// Whether the chars of `s` in `[lo, hi)` spell `w`.
fn matches_word(s: &str, lo: usize, hi: usize, w: &str) -> (r: bool)
    requires
        lo <= hi <= s@.len(),
    ensures
        r == (s@.subrange(lo as int, hi as int) == w@),
{
    let n = w.unicode_len();
    if hi - lo != n {
        proof {
            if s@.subrange(lo as int, hi as int) == w@ {
                assert(s@.subrange(lo as int, hi as int).len() == n);
            }
        }
        return false;
    }
    let mut i: usize = 0;
    while i < n
        invariant
            n == w@.len(),
            hi - lo == n,
            lo <= hi <= s@.len(),
            i <= n,
            forall|k: int| 0 <= k < i ==> s@[lo + k] == w@[k],
        decreases n - i,
    {
        if s.get_char(lo + i) != w.get_char(i) {
            assert(s@.subrange(lo as int, hi as int)[i as int] != w@[i as int]);
            return false;
        }
        i = i + 1;
    }
    assert(s@.subrange(lo as int, hi as int) =~= w@);
    true
}

/// The value of line `[lo, hi)` of `s` when its key is `name`.
fn line_value(s: &str, lo: usize, hi: usize) -> (r: Option<String>)
    requires
        lo <= hi <= s@.len(),
    ensures
        match r {
            Some(v) => line_name(s@, lo as int, hi as int) == Some(v@),
            None => line_name(s@, lo as int, hi as int) is None,
        },
{
    let eq = find_char(s, lo, hi, '=');
    if eq == hi {
        return None;
    }
    let k_lo = trim_start(s, lo, eq);
    let k_hi = trim_end(s, k_lo, eq);
    proof {
        reveal_strlit("name");
        assert("name"@ =~= name_key());
    }
    if !matches_word(s, k_lo, k_hi, "name") {
        return None;
    }
    let v_lo = trim_start(s, eq + 1, hi);
    let v_hi = trim_end(s, v_lo, hi);
    let d_lo = strip_start(s, v_lo, v_hi, '"');
    let d_hi = strip_end(s, d_lo, v_hi, '"');
    let q_lo = strip_start(s, d_lo, d_hi, '\'');
    let q_hi = strip_end(s, q_lo, d_hi, '\'');
    Some(s.substring_char(q_lo, q_hi).to_string())
}

/// The project name that the manifest text `manifest` declares: the value
/// of the first line of its `[package]` section whose key is `name`, or
/// `None` where that section has no such line.
pub fn project_name(manifest: &str) -> (r: Option<String>)
    ensures
        match r {
            Some(v) => manifest_name(manifest@) == Some(v@),
            None => manifest_name(manifest@) is None,
        },
{
    proof {
        reveal_strlit("[package]");
        assert("[package]"@ =~= package_header());
    }
    let n = manifest.unicode_len();
    let mut start: usize = 0;
    let mut in_package = false;
    loop
        invariant
            n == manifest@.len(),
            start <= n,
            "[package]"@ == package_header(),
            manifest_name(manifest@) == name_from(manifest@, start as int, in_package),
        decreases n - start,
    {
        let end = find_char(manifest, start, n, '\n');
        let t_lo = trim_start(manifest, start, end);
        let header = t_lo < end && manifest.get_char(t_lo) == '[';
        if !header && in_package {
            let found = line_value(manifest, start, end);
            if found.is_some() {
                return found;
            }
        }
        if end == n {
            return None;
        }
        if header {
            let t_hi = trim_end(manifest, t_lo, end);
            in_package = matches_word(manifest, t_lo, t_hi, "[package]");
        }
        start = end + 1;
    }
}

} // verus!
