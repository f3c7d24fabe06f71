//! Character-level helpers shared by the request decoder and the token code.

use vstd::prelude::*;

verus! {

/// What `str::to_lowercase` makes of a character sequence.
pub uninterp spec fn lower_of(s: Seq<char>) -> Seq<char>;

/// Relies on `str::to_lowercase`: the result depends on the characters alone.
#[verifier::external_body]
pub(crate) fn to_lower(s: &str) -> (r: String)
    ensures
        r@ == lower_of(s@),
{
    s.to_lowercase()
}

/// The characters of `s`, one slot each.
pub fn chars_of(s: &str) -> (r: Vec<char>)
    ensures
        r@ == s@,
{
    let n = s.unicode_len();
    let mut v: Vec<char> = Vec::new();
    let mut i: usize = 0;
    while i < n
        invariant
            n == s@.len(),
            i <= n,
            v@ == s@.subrange(0, i as int),
        decreases n - i,
    {
        v.push(s.get_char(i));
        i = i + 1;
        assert(v@ =~= s@.subrange(0, i as int));
    }
    assert(v@ =~= s@);
    v
}

/// Characters with the Unicode `White_Space` property (what `char::is_whitespace` accepts).
pub open spec fn is_white(c: char) -> bool {
    let u = c as u32;
    (0x9 <= u && u <= 0xd) || u == 0x20 || u == 0x85 || u == 0xa0 || u == 0x1680 || (0x2000 <= u
        && u <= 0x200a) || u == 0x2028 || u == 0x2029 || u == 0x202f || u == 0x205f || u == 0x3000
}

pub fn is_white_char(c: char) -> (r: bool)
    ensures
        r == is_white(c),
{
    let u = c as u32;
    (0x9 <= u && u <= 0xd) || u == 0x20 || u == 0x85 || u == 0xa0 || u == 0x1680 || (0x2000 <= u
        && u <= 0x200a) || u == 0x2028 || u == 0x2029 || u == 0x202f || u == 0x205f || u == 0x3000
}

/// First index in `[i, hi)` holding `c`, or `hi` when there is none.
pub open spec fn find_char(s: Seq<char>, i: int, hi: int, c: char) -> int
    decreases hi - i,
{
    if i >= hi {
        hi
    } else if s[i] == c {
        i
    } else {
        find_char(s, i + 1, hi, c)
    }
}

/// First index in `[i, hi)` holding a non-white character, or `hi`.
pub open spec fn skip_white(s: Seq<char>, i: int, hi: int) -> int
    decreases hi - i,
{
    if i >= hi {
        hi
    } else if is_white(s[i]) {
        skip_white(s, i + 1, hi)
    } else {
        i
    }
}

/// First index in `[i, hi)` holding a white character, or `hi`.
pub open spec fn find_white(s: Seq<char>, i: int, hi: int) -> int
    decreases hi - i,
{
    if i >= hi {
        hi
    } else if is_white(s[i]) {
        i
    } else {
        find_white(s, i + 1, hi)
    }
}

/// End of `[lo, j)` once trailing white characters are dropped.
pub open spec fn trim_back(s: Seq<char>, lo: int, j: int) -> int
    decreases j - lo,
{
    if j <= lo {
        lo
    } else if is_white(s[j - 1]) {
        trim_back(s, lo, j - 1)
    } else {
        j
    }
}

/// The characters of `[lo, hi)` without leading and trailing white space.
pub open spec fn trimmed(s: Seq<char>, lo: int, hi: int) -> Seq<char> {
    let a = skip_white(s, lo, hi);
    s.subrange(a, trim_back(s, a, hi))
}

pub fn find_char_in(s: &Vec<char>, i: usize, hi: usize, c: char) -> (r: usize)
    requires
        i <= hi <= s@.len(),
    ensures
        r == find_char(s@, i as int, hi as int, c),
        i <= r <= hi,
{
    let mut k = i;
    while k < hi && s[k] != c
        invariant
            i <= k <= hi <= s@.len(),
            find_char(s@, k as int, hi as int, c) == find_char(s@, i as int, hi as int, c),
        decreases hi - k,
    {
        k = k + 1;
    }
    k
}

pub fn skip_white_in(s: &Vec<char>, i: usize, hi: usize) -> (r: usize)
    requires
        i <= hi <= s@.len(),
    ensures
        r == skip_white(s@, i as int, hi as int),
        i <= r <= hi,
{
    let mut k = i;
    while k < hi && is_white_char(s[k])
        invariant
            i <= k <= hi <= s@.len(),
            skip_white(s@, k as int, hi as int) == skip_white(s@, i as int, hi as int),
        decreases hi - k,
    {
        k = k + 1;
    }
    k
}

pub fn find_white_in(s: &Vec<char>, i: usize, hi: usize) -> (r: usize)
    requires
        i <= hi <= s@.len(),
    ensures
        r == find_white(s@, i as int, hi as int),
        i <= r <= hi,
{
    let mut k = i;
    while k < hi && !is_white_char(s[k])
        invariant
            i <= k <= hi <= s@.len(),
            find_white(s@, k as int, hi as int) == find_white(s@, i as int, hi as int),
        decreases hi - k,
    {
        k = k + 1;
    }
    k
}

/// Bounds of `[lo, hi)` once white space is dropped at both ends.
pub fn trim_bounds(s: &Vec<char>, lo: usize, hi: usize) -> (r: (usize, usize))
    requires
        lo <= hi <= s@.len(),
    ensures
        r.0 == skip_white(s@, lo as int, hi as int),
        r.1 == trim_back(s@, r.0 as int, hi as int),
        lo <= r.0 <= r.1 <= hi,
        s@.subrange(r.0 as int, r.1 as int) == trimmed(s@, lo as int, hi as int),
{
    let a = skip_white_in(s, lo, hi);
    let mut j = hi;
    while j > a && is_white_char(s[j - 1])
        invariant
            a <= j <= hi <= s@.len(),
            trim_back(s@, a as int, j as int) == trim_back(s@, a as int, hi as int),
        decreases j,
    {
        j = j - 1;
    }
    (a, j)
}

/// `s` with each two-character sequence `\\n` (a backslash, then `n`) turned
/// into a line feed, scanning left to right.
pub open spec fn unescape_newlines(s: Seq<char>) -> Seq<char>
    decreases s.len(),
{
    if s.len() == 0 {
        s
    } else if s.len() >= 2 && s[0] == '\\' && s[1] == 'n' {
        seq!['\n'] + unescape_newlines(s.subrange(2, s.len() as int))
    } else {
        seq![s[0]] + unescape_newlines(s.drop_first())
    }
}

/// Turns the escaped line breaks of a key kept on one line (as in an
/// environment variable) into real ones.
pub fn normalize_newlines(s: &str) -> (r: String)
    ensures
        r@ == unescape_newlines(s@),
{
    let cs = chars_of(s);
    let n = cs.len();
    let mut out = String::new();
    let mut seg: usize = 0;
    let mut i: usize = 0;
    let lf = "\n";
    proof {
        reveal_strlit("\n");
    }
    assert(s@.subrange(0, n as int) =~= s@);
    while i < n
        invariant
            cs@ == s@,
            n == s@.len(),
            seg <= i <= n,
            lf@ == seq!['\n'],
            out@ + s@.subrange(seg as int, i as int) + unescape_newlines(s@.subrange(i as int, n as int))
                == unescape_newlines(s@),
        decreases n - i,
    {
        let ghost rest = s@.subrange(i as int, n as int);
        if i + 1 < n && cs[i] == '\\' && cs[i + 1] == 'n' {
            assert(rest.subrange(2, rest.len() as int) =~= s@.subrange(i + 2, n as int));
            out.append(s.substring_char(seg, i));
            out.append(lf);
            i = i + 2;
            seg = i;
            assert(s@.subrange(seg as int, i as int) =~= Seq::<char>::empty());
        } else {
            assert(rest.drop_first() =~= s@.subrange(i + 1, n as int));
            assert(s@.subrange(seg as int, i + 1) =~= s@.subrange(seg as int, i as int) + seq![
                s@[i as int],
            ]);
            i = i + 1;
        }
    }
    out.append(s.substring_char(seg, n));
    assert(s@.subrange(n as int, n as int) =~= Seq::<char>::empty());
    assert(out@ =~= unescape_newlines(s@));
    out
}

} // verus!
