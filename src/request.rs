//! Decoding of one HTTP/1.1 request taken from a single buffered read.

use vstd::prelude::*;
use crate::text::{
    chars_of, find_char, find_char_in, find_white, find_white_in, lower_of, skip_white,
    skip_white_in, to_lower, trim_bounds, trimmed,
};

verus! {

#[derive(PartialEq, Eq, Structural, Clone, Copy, Debug)]
pub enum Method {
    GET,
    POST,
}

/// Why a request could not be decoded.
#[derive(PartialEq, Eq, Structural, Clone, Copy, Debug)]
pub enum DecodeError {
    /// Nothing stands before the blank line.
    EmptyRequest,
    /// The request line holds no method.
    MissingMethod,
    /// The method is neither `GET` nor `POST`.
    UnsupportedMethod,
    /// The request line holds no path.
    MissingPath,
}

/// The reason text of each decoding failure.
pub open spec fn decode_error_text(e: DecodeError) -> Seq<char> {
    match e {
        DecodeError::EmptyRequest => "Empty Request"@,
        DecodeError::MissingMethod => "Missing Method"@,
        DecodeError::UnsupportedMethod => "Method not supported"@,
        DecodeError::MissingPath => "No Path"@,
    }
}

impl DecodeError {
    pub fn message(&self) -> (r: &'static str)
        ensures
            r@ == decode_error_text(*self),
    {
        match self {
            DecodeError::EmptyRequest => "Empty Request",
            DecodeError::MissingMethod => "Missing Method",
            DecodeError::UnsupportedMethod => "Method not supported",
            DecodeError::MissingPath => "No Path",
        }
    }
}

/// The method named by a request-line token.
pub open spec fn method_of(t: Seq<char>) -> Option<Method> {
    if t == seq!['G', 'E', 'T'] {
        Some(Method::GET)
    } else if t == seq!['P', 'O', 'S', 'T'] {
        Some(Method::POST)
    } else {
        None
    }
}

impl Method {
    pub fn try_from_str(value: &str) -> (r: Result<Method, DecodeError>)
        ensures
            r == (match method_of(value@) {
                Some(m) => Ok(m),
                None => Err(DecodeError::UnsupportedMethod),
            }),
    {
        let n = value.unicode_len();
        if n == 3 && value.get_char(0) == 'G' && value.get_char(1) == 'E' && value.get_char(2)
            == 'T' {
            assert(value@ =~= seq!['G', 'E', 'T']);
            Ok(Method::GET)
        } else if n == 4 && value.get_char(0) == 'P' && value.get_char(1) == 'O'
            && value.get_char(2) == 'S' && value.get_char(3) == 'T' {
            assert(value@ =~= seq!['P', 'O', 'S', 'T']);
            Ok(Method::POST)
        } else {
            assert(value@ != seq!['G', 'E', 'T'] && value@ != seq!['P', 'O', 'S', 'T']) by {
                if value@ == seq!['G', 'E', 'T'] {
                    assert(value@[0] == 'G' && value@[1] == 'E' && value@[2] == 'T');
                }
                if value@ == seq!['P', 'O', 'S', 'T'] {
                    assert(value@[0] == 'P' && value@[1] == 'O' && value@[2] == 'S');
                    assert(value@[3] == 'T');
                }
            }
            Err(DecodeError::UnsupportedMethod)
        }
    }
}

/// `s[i..i + 4]` is the blank line `\r\n\r\n` that ends the header block.
pub open spec fn blank_at(s: Seq<char>, i: int) -> bool {
    0 <= i && i + 4 <= s.len() && s[i] == '\r' && s[i + 1] == '\n' && s[i + 2] == '\r' && s[i
        + 3] == '\n'
}

/// First blank line at or after `i`, or `s.len()` when there is none.
pub open spec fn find_blank(s: Seq<char>, i: int) -> int
    decreases s.len() - i,
{
    if i + 4 > s.len() {
        s.len() as int
    } else if blank_at(s, i) {
        i
    } else {
        find_blank(s, i + 1)
    }
}

/// End of the text of the line that starts at `i` inside `[i, hi)`: up to the
/// next `\n`, without the `\r` that may stand before it.
pub open spec fn line_text_end(s: Seq<char>, i: int, hi: int) -> int {
    let e = find_char(s, i, hi, '\n');
    if e < hi && e > i && s[e - 1] == '\r' {
        e - 1
    } else {
        e
    }
}

/// The entry that a header line `[i, e)` contributes: split once on the first
/// `:`, the key trimmed and lower-cased, the value trimmed.
pub open spec fn header_entry(s: Seq<char>, i: int, e: int) -> Option<(Seq<char>, Seq<char>)> {
    let p = find_char(s, i, e, ':');
    if p < e {
        Some((lower_of(trimmed(s, i, p)), trimmed(s, p + 1, e)))
    } else {
        None
    }
}

/// The header lines of `[i, hi)` entered in order into `acc`; a later line
/// overwrites an earlier one with the same key.
pub open spec fn headers_from(
    s: Seq<char>,
    i: int,
    hi: int,
    acc: Map<Seq<char>, Seq<char>>,
) -> Map<Seq<char>, Seq<char>>
    decreases hi - i,
{
    let nl = find_char(s, i, hi, '\n');
    if i >= hi || nl < i {
        acc
    } else {
        let next = match header_entry(s, i, line_text_end(s, i, hi)) {
            Some(kv) => acc.insert(kv.0, kv.1),
            None => acc,
        };
        if nl >= hi {
            next
        } else {
            headers_from(s, nl + 1, hi, next)
        }
    }
}

/// The mapping that a list of header pairs stands for: the last pair with a
/// given key wins.
pub open spec fn header_map(v: Seq<(String, String)>) -> Map<Seq<char>, Seq<char>>
    decreases v.len(),
{
    if v.len() == 0 {
        Map::empty()
    } else {
        header_map(v.drop_last()).insert(v.last().0@, v.last().1@)
    }
}

pub struct RequestView {
    pub method: Method,
    pub path: Seq<char>,
    pub headers: Map<Seq<char>, Seq<char>>,
    pub body: Seq<char>,
}

/// What decoding the characters `s` yields.
pub open spec fn request_model(s: Seq<char>) -> Result<RequestView, DecodeError> {
    let he = find_blank(s, 0);
    let bs = if he < s.len() {
        he + 4
    } else {
        s.len() as int
    };
    let e0 = line_text_end(s, 0, he);
    let a = skip_white(s, 0, e0);
    let b = find_white(s, a, e0);
    let c = skip_white(s, b, e0);
    let d = find_white(s, c, e0);
    if he == 0 {
        Err(DecodeError::EmptyRequest)
    } else if a >= e0 {
        Err(DecodeError::MissingMethod)
    } else if method_of(s.subrange(a, b)) is None {
        Err(DecodeError::UnsupportedMethod)
    } else if c >= e0 {
        Err(DecodeError::MissingPath)
    } else {
        Ok(
            RequestView {
                method: method_of(s.subrange(a, b))->Some_0,
                path: s.subrange(c, d),
                headers: headers_from(s, find_char(s, 0, he, '\n') + 1, he, Map::empty()),
                body: s.subrange(bs, s.len() as int),
            },
        )
    }
}

pub struct Request {
    pub method: Method,
    pub path: String,
    /// Header pairs in the order they came; see `header_map` for the mapping.
    pub headers: Vec<(String, String)>,
    pub body: String,
}

impl View for Request {
    type V = RequestView;

    open spec fn view(&self) -> RequestView {
        RequestView {
            method: self.method,
            path: self.path@,
            headers: header_map(self.headers@),
            body: self.body@,
        }
    }
}

fn find_blank_in(s: &Vec<char>) -> (r: usize)
    ensures
        r == find_blank(s@, 0),
        r <= s@.len(),
        r < s@.len() ==> blank_at(s@, r as int),
{
    let n = s.len();
    let mut i: usize = 0;
    while 4 <= n - i && !(s[i] == '\r' && s[i + 1] == '\n' && s[i + 2] == '\r' && s[i + 3]
        == '\n')
        invariant
            n == s@.len(),
            i <= n,
            find_blank(s@, i as int) == find_blank(s@, 0),
        decreases n - i,
    {
        i = i + 1;
    }
    if 4 <= n - i {
        i
    } else {
        n
    }
}

fn line_text_end_in(s: &Vec<char>, i: usize, hi: usize) -> (r: (usize, usize))
    requires
        i <= hi <= s@.len(),
    ensures
        r.0 == find_char(s@, i as int, hi as int, '\n'),
        r.1 == line_text_end(s@, i as int, hi as int),
        i <= r.1 <= r.0 <= hi,
{
    let nl = find_char_in(s, i, hi, '\n');
    if nl < hi && nl > i && s[nl - 1] == '\r' {
        (nl, nl - 1)
    } else {
        (nl, nl)
    }
}

fn decode_headers(s: &Vec<char>, raw: &str, start: usize, hi: usize) -> (r: Vec<(String, String)>)
    requires
        s@ == raw@,
        hi <= s@.len(),
    ensures
        header_map(r@) == headers_from(s@, start as int, hi as int, Map::empty()),
{
    let mut hs: Vec<(String, String)> = Vec::new();
    let mut i = start;
    while i < hi
        invariant
            s@ == raw@,
            hi <= s@.len(),
            headers_from(s@, i as int, hi as int, header_map(hs@)) == headers_from(
                s@,
                start as int,
                hi as int,
                Map::empty(),
            ),
        decreases hi - i,
    {
        let (nl, e) = line_text_end_in(s, i, hi);
        let p = find_char_in(s, i, e, ':');
        if p < e {
            let (ka, kb) = trim_bounds(s, i, p);
            let (va, vb) = trim_bounds(s, p + 1, e);
            let key = to_lower(raw.substring_char(ka, kb));
            let value = String::from_str(raw.substring_char(va, vb));
            let ghost before = hs@;
            hs.push((key, value));
            assert(hs@.drop_last() =~= before);
        }
        if nl < hi {
            i = nl + 1;
        } else {
            i = hi;
        }
    }
    hs
}

proof fn lemma_header_map_prefix(v: Seq<(String, String)>, j: int, k: Seq<char>)
    requires
        0 <= j <= v.len(),
        forall|m: int| j <= m < v.len() ==> v[m].0@ != k,
    ensures
        header_map(v).contains_key(k) == header_map(v.subrange(0, j)).contains_key(k),
        header_map(v).contains_key(k) ==> header_map(v)[k] == header_map(v.subrange(0, j))[k],
    decreases v.len(),
{
    if j == v.len() {
        assert(v.subrange(0, j) =~= v);
    } else {
        lemma_header_map_prefix(v.drop_last(), j, k);
        assert(v.drop_last().subrange(0, j) =~= v.subrange(0, j));
    }
}

impl Request {
    /// Decodes a request: the header block ends at the first blank line, the
    /// body is everything after it (empty when there is no blank line).
    pub fn new(raw: &str) -> (r: Result<Request, DecodeError>)
        ensures
            match r {
                Ok(q) => request_model(raw@) == Ok::<RequestView, DecodeError>(q@),
                Err(e) => request_model(raw@) == Err::<RequestView, DecodeError>(e),
            },
    {
        let s = chars_of(raw);
        let n = s.len();
        let he = find_blank_in(&s);
        let bs = if he < n {
            he + 4
        } else {
            n
        };
        if he == 0 {
            return Err(DecodeError::EmptyRequest);
        }
        let (nl, e0) = line_text_end_in(&s, 0, he);
        let a = skip_white_in(&s, 0, e0);
        if a >= e0 {
            return Err(DecodeError::MissingMethod);
        }
        let b = find_white_in(&s, a, e0);
        let method = match Method::try_from_str(raw.substring_char(a, b)) {
            Ok(m) => m,
            Err(e) => {
                return Err(e);
            },
        };
        let c = skip_white_in(&s, b, e0);
        if c >= e0 {
            return Err(DecodeError::MissingPath);
        }
        let d = find_white_in(&s, c, e0);
        let path = String::from_str(raw.substring_char(c, d));
        let rest = if nl < he {
            nl + 1
        } else {
            he
        };
        let headers = decode_headers(&s, raw, rest, he);
        let body = String::from_str(raw.substring_char(bs, n));
        Ok(Request { method, path, headers, body })
    }

    /// The value of header `name` (keys are stored lower-cased).
    pub fn header(&self, name: &str) -> (r: Option<String>)
        ensures
            match r {
                Some(v) => self@.headers.contains_key(name@) && self@.headers[name@] == v@,
                None => !self@.headers.contains_key(name@),
            },
    {
        let key = String::from_str(name);
        let mut j = self.headers.len();
        while j > 0
            invariant
                j <= self.headers@.len(),
                key@ == name@,
                forall|m: int| j <= m < self.headers@.len() ==> self.headers@[m].0@ != name@,
            decreases j,
        {
            if self.headers[j - 1].0 == key {
                proof {
                    lemma_header_map_prefix(self.headers@, j as int, name@);
                    assert(self.headers@.subrange(0, j as int).drop_last() =~= self.headers@.subrange(
                        0,
                        j - 1,
                    ));
                }
                return Some(self.headers[j - 1].1.clone());
            }
            j = j - 1;
        }
        proof {
            lemma_header_map_prefix(self.headers@, 0, name@);
        }
        None
    }
}

} // verus!
