//! Issuing and checking signed bearer tokens (RS256 JSON Web Tokens).

use vstd::prelude::*;
use crate::error::CustomError;
use crate::model::User;
use crate::text::{
    chars_of, find_char, find_char_in, is_white, is_white_char, normalize_newlines, trim_bounds,
    trimmed, unescape_newlines,
};

verus! {

/// A parsed RSA private key, ready to sign.
#[verifier::external_type_specification]
#[verifier::external_body]
pub struct ExEncodingKey(jsonwebtoken::EncodingKey);

/// A parsed RSA public key, ready to check signatures.
#[verifier::external_type_specification]
#[verifier::external_body]
pub struct ExDecodingKey(jsonwebtoken::DecodingKey);

/// Why jsonwebtoken refused a key or a signing.
#[verifier::external_type_specification]
#[verifier::external_body]
pub struct ExJwtError(jsonwebtoken::errors::Error);

/// Whether `jsonwebtoken::EncodingKey::from_rsa_pem` accepts this PEM text.
pub uninterp spec fn private_pem_accepted(pem: Seq<char>) -> bool;

/// Whether `jsonwebtoken::DecodingKey::from_rsa_pem` accepts this PEM text.
pub uninterp spec fn public_pem_accepted(pem: Seq<char>) -> bool;

/// Relies on `jsonwebtoken::EncodingKey::from_rsa_pem`: parses a PEM-encoded
/// RSA private key; whether it succeeds depends on the text alone.
#[verifier::external_body]
fn encoding_key_from_pem(pem: &str) -> (r: Result<
    jsonwebtoken::EncodingKey,
    jsonwebtoken::errors::Error,
>)
    ensures
        r is Ok <==> private_pem_accepted(pem@),
{
    jsonwebtoken::EncodingKey::from_rsa_pem(pem.as_bytes())
}

/// Relies on `jsonwebtoken::DecodingKey::from_rsa_pem`: parses a PEM-encoded
/// RSA public key; whether it succeeds depends on the text alone.
#[verifier::external_body]
fn decoding_key_from_pem(pem: &str) -> (r: Result<
    jsonwebtoken::DecodingKey,
    jsonwebtoken::errors::Error,
>)
    ensures
        r is Ok <==> public_pem_accepted(pem@),
{
    jsonwebtoken::DecodingKey::from_rsa_pem(pem.as_bytes())
}

/// A character of the URL-safe base64 alphabet, or the `.` between a token's parts.
pub open spec fn is_token_char(c: char) -> bool {
    ('A' <= c && c <= 'Z') || ('a' <= c && c <= 'z') || ('0' <= c && c <= '9') || c == '-' || c
        == '_' || c == '.'
}

/// A signed token as `jsonwebtoken::encode` writes it: non-empty, base64url parts joined by dots.
pub open spec fn is_token_text(t: Seq<char>) -> bool {
    t.len() > 0 && forall|i: int| 0 <= i < t.len() ==> is_token_char(#[trigger] t[i])
}

/// Relies on `jsonwebtoken::encode` with an RS256 header: signs the claims object
/// `{"sub": sub, "exp": exp}` and joins the base64url header, claims and signature with dots.
#[verifier::external_body]
fn sign_rs256(sub: &str, exp: u64, key: &jsonwebtoken::EncodingKey) -> (r: Result<
    String,
    jsonwebtoken::errors::Error,
>)
    ensures
        r is Ok ==> is_token_text(r->Ok_0@),
{
    let mut claims = serde_json::Map::new();
    claims.insert("sub".to_string(), serde_json::Value::from(sub));
    claims.insert("exp".to_string(), serde_json::Value::from(exp));
    let header = jsonwebtoken::Header::new(jsonwebtoken::Algorithm::RS256);
    jsonwebtoken::encode(&header, &claims, key)
}

/// Relies on `jsonwebtoken::decode` with an RS256 `Validation` whose expiry
/// check is off (expiry is checked by `verify_claims`): it checks the signature
/// of `token` against `key`, decodes the claims object, and hands out its
/// `sub` string and `exp` integer where they are present.
#[verifier::external_body]
fn decode_rs256(token: &str, key: &jsonwebtoken::DecodingKey) -> (r: Result<
    (Option<String>, Option<u64>),
    jsonwebtoken::errors::Error,
>) {
    let mut validation = jsonwebtoken::Validation::new(jsonwebtoken::Algorithm::RS256);
    validation.validate_exp = false;
    validation.required_spec_claims.clear();
    let claims = jsonwebtoken::decode::<serde_json::Map<String, serde_json::Value>>(token, key, &validation)?.claims;
    let sub = claims.get("sub").and_then(|v| v.as_str()).map(String::from);
    Ok((sub, claims.get("exp").and_then(|v| v.as_u64())))
}

/// The payload of a token: its subject and its expiration in seconds since the Unix epoch.
pub struct Claims {
    pub sub: String,
    pub exp: u64,
}

pub struct ClaimsView {
    pub sub: Seq<char>,
    pub exp: int,
}

impl View for Claims {
    type V = ClaimsView;

    open spec fn view(&self) -> ClaimsView {
        ClaimsView { sub: self.sub@, exp: self.exp as int }
    }
}

/// The claims issued at `now` to `username` for `ttl` seconds.
pub open spec fn issued_claims(username: Seq<char>, now: u64, ttl: u64) -> ClaimsView {
    ClaimsView { sub: username, exp: now + ttl }
}

/// What checking claims at `now` yields: the subject while `now` is before
/// the expiration, an expiry failure from then on.
pub open spec fn check_claims(c: ClaimsView, now: u64) -> Result<Seq<char>, CustomError> {
    if c.exp <= now {
        Err(CustomError::ExpiredToken)
    } else {
        Ok(c.sub)
    }
}

impl Claims {
    /// Claims for `user` issued at `now`; `None` where the expiration does not fit in a `u64`.
    pub fn issued(user: &User, now: u64, ttl: u64) -> (r: Option<Claims>)
        ensures
            r is Some <==> now + ttl <= u64::MAX,
            r is Some ==> r->Some_0@ == issued_claims(user.username@, now, ttl),
    {
        if ttl > u64::MAX - now {
            None
        } else {
            Some(Claims { sub: user.username.clone(), exp: now + ttl })
        }
    }
}

/// Checks claims whose signature has already been verified; `None` stands for
/// a token that could not be verified or decoded.
pub fn verify_claims(decoded: Option<Claims>, now: u64) -> (r: Result<String, CustomError>)
    ensures
        match decoded {
            None => r == Err::<String, CustomError>(CustomError::InvalidToken),
            Some(c) => match check_claims(c@, now) {
                Ok(sub) => r is Ok && r->Ok_0@ == sub,
                Err(e) => r == Err::<String, CustomError>(e),
            },
        },
{
    match decoded {
        None => Err(CustomError::InvalidToken),
        Some(c) => {
            if c.exp <= now {
                Err(CustomError::ExpiredToken)
            } else {
                Ok(c.sub)
            }
        },
    }
}

/// The claims read from a decoded token; both must be present.
pub fn claims_from_parts(sub: Option<String>, exp: Option<u64>) -> (r: Option<Claims>)
    ensures
        match (sub, exp) {
            (Some(s), Some(e)) => r is Some && r->Some_0.sub == s && r->Some_0.exp == e,
            _ => r is None,
        },
{
    match (sub, exp) {
        (Some(s), Some(e)) => Some(Claims { sub: s, exp: e }),
        _ => None,
    }
}

/// Checks a token: its signature against `key`, then its claims at `now`.
/// A bad signature or a malformed token is `InvalidToken`; claims past their
/// expiration are `ExpiredToken`.
pub fn verify_jwt(token: &str, key: &jsonwebtoken::DecodingKey, now: u64) -> (r: Result<
    String,
    CustomError,
>)
    ensures
        r is Err ==> r == Err::<String, CustomError>(CustomError::InvalidToken) || r == Err::<
            String,
            CustomError,
        >(CustomError::ExpiredToken),
{
    let decoded = match decode_rs256(token, key) {
        Ok((sub, exp)) => claims_from_parts(sub, exp),
        Err(_) => None,
    };
    verify_claims(decoded, now)
}

/// Claims issued to a user verify, and give back the user's name, at every
/// moment from issuance until the expiration.
pub proof fn lemma_issued_claims_verify(username: Seq<char>, now: u64, ttl: u64, at: u64)
    requires
        now + ttl <= u64::MAX,
        now <= at < now + ttl,
    ensures
        check_claims(issued_claims(username, now, ttl), at) == Ok::<Seq<char>, CustomError>(
            username,
        ),
{
}

/// Claims issued with no time to live, or checked at or after their
/// expiration, are refused as expired.
pub proof fn lemma_expired_claims_refused(username: Seq<char>, now: u64, ttl: u64, at: u64)
    requires
        now + ttl <= at,
    ensures
        check_claims(issued_claims(username, now, ttl), at) == Err::<Seq<char>, CustomError>(
            CustomError::ExpiredToken,
        ),
{
}

/// The token carried by an `Authorization` value of the form `Bearer <token>`:
/// the text after `Bearer `, which must be non-empty and hold no white space.
pub open spec fn bearer_token(v: Seq<char>) -> Option<Seq<char>> {
    if v.len() > 7 && v.subrange(0, 7) == seq!['B', 'e', 'a', 'r', 'e', 'r', ' '] && (forall|
        i: int,
    |
        7 <= i < v.len() ==> !is_white(#[trigger] v[i])) {
        Some(v.subrange(7, v.len() as int))
    } else {
        None
    }
}

/// Extracts the token from an `Authorization` header value.
pub fn bearer_value(r: &str) -> (t: Option<String>)
    ensures
        match bearer_token(r@) {
            Some(b) => t is Some && t->Some_0@ == b,
            None => t is None,
        },
{
    let n = r.unicode_len();
    if n <= 7 {
        return None;
    }
    let prefix = r.get_char(0) == 'B' && r.get_char(1) == 'e' && r.get_char(2) == 'a'
        && r.get_char(3) == 'r' && r.get_char(4) == 'e' && r.get_char(5) == 'r' && r.get_char(6)
        == ' ';
    if !prefix {
        assert(r@.subrange(0, 7) != seq!['B', 'e', 'a', 'r', 'e', 'r', ' ']) by {
            if r@.subrange(0, 7) == seq!['B', 'e', 'a', 'r', 'e', 'r', ' '] {
                assert(r@.subrange(0, 7)[0] == 'B' && r@.subrange(0, 7)[1] == 'e');
                assert(r@.subrange(0, 7)[2] == 'a' && r@.subrange(0, 7)[3] == 'r');
                assert(r@.subrange(0, 7)[4] == 'e' && r@.subrange(0, 7)[5] == 'r');
                assert(r@.subrange(0, 7)[6] == ' ');
            }
        }
        return None;
    }
    assert(r@.subrange(0, 7) =~= seq!['B', 'e', 'a', 'r', 'e', 'r', ' ']);
    let mut i: usize = 7;
    while i < n
        invariant
            n == r@.len(),
            7 <= i <= n,
            forall|k: int| 7 <= k < i ==> !is_white(#[trigger] r@[k]),
        decreases n - i,
    {
        if is_white_char(r.get_char(i)) {
            return None;
        }
        i = i + 1;
    }
    Some(String::from_str(r.substring_char(7, n)))
}

/// The header name `authorization` in lower case.
pub open spec fn authorization_lower() -> Seq<char> {
    seq!['a', 'u', 't', 'h', 'o', 'r', 'i', 'z', 'a', 't', 'i', 'o', 'n']
}

/// The header name `AUTHORIZATION` in upper case.
pub open spec fn authorization_upper() -> Seq<char> {
    seq!['A', 'U', 'T', 'H', 'O', 'R', 'I', 'Z', 'A', 'T', 'I', 'O', 'N']
}

/// `k` spells `authorization` with each letter in either case.
pub open spec fn is_authorization(k: Seq<char>) -> bool {
    k.len() == 13 && forall|i: int|
        0 <= i < 13 ==> (#[trigger] k[i] == authorization_lower()[i] || k[i]
            == authorization_upper()[i])
}

/// The token that the line `[i, e)` carries when it is an `Authorization`
/// header: split once on the first `:`, key and value trimmed.
pub open spec fn line_bearer(s: Seq<char>, i: int, e: int) -> Option<Seq<char>> {
    let p = find_char(s, i, e, ':');
    if p < e && is_authorization(trimmed(s, i, p)) {
        bearer_token(trimmed(s, p + 1, e))
    } else {
        None
    }
}

/// The token of the first line at or after `i` (lines end at `\n`) that is
/// an `Authorization: Bearer <token>` header.
pub open spec fn first_bearer(s: Seq<char>, i: int, n: int) -> Option<Seq<char>>
    decreases n - i,
{
    let nl = find_char(s, i, n, '\n');
    if i >= n || nl < i {
        None
    } else {
        match line_bearer(s, i, nl) {
            Some(t) => Some(t),
            None => if nl >= n {
                None
            } else {
                first_bearer(s, nl + 1, n)
            },
        }
    }
}

fn is_authorization_in(s: &Vec<char>, a: usize, b: usize) -> (r: bool)
    requires
        a <= b <= s@.len(),
    ensures
        r == is_authorization(s@.subrange(a as int, b as int)),
{
    if b - a != 13 {
        return false;
    }
    let lower = vec!['a', 'u', 't', 'h', 'o', 'r', 'i', 'z', 'a', 't', 'i', 'o', 'n'];
    let upper = vec!['A', 'U', 'T', 'H', 'O', 'R', 'I', 'Z', 'A', 'T', 'I', 'O', 'N'];
    assert(lower@ =~= authorization_lower());
    assert(upper@ =~= authorization_upper());
    let ghost k = s@.subrange(a as int, b as int);
    let mut j: usize = 0;
    while j < 13
        invariant
            a + 13 == b <= s@.len(),
            k == s@.subrange(a as int, b as int),
            lower@ == authorization_lower(),
            upper@ == authorization_upper(),
            j <= 13,
            forall|m: int|
                0 <= m < j ==> (#[trigger] k[m] == authorization_lower()[m] || k[m]
                    == authorization_upper()[m]),
        decreases 13 - j,
    {
        assert(k[j as int] == s@[a + j]);
        if !(s[a + j] == lower[j] || s[a + j] == upper[j]) {
            return false;
        }
        j = j + 1;
    }
    true
}

fn line_bearer_in(s: &Vec<char>, r: &str, i: usize, e: usize) -> (t: Option<String>)
    requires
        s@ == r@,
        i <= e <= s@.len(),
    ensures
        match line_bearer(s@, i as int, e as int) {
            Some(b) => t is Some && t->Some_0@ == b,
            None => t is None,
        },
{
    let p = find_char_in(s, i, e, ':');
    if p >= e {
        return None;
    }
    let (ka, kb) = trim_bounds(s, i, p);
    if !is_authorization_in(s, ka, kb) {
        return None;
    }
    let (va, vb) = trim_bounds(s, p + 1, e);
    bearer_value(r.substring_char(va, vb))
}

/// Looks through the lines of a request's text for the first
/// `Authorization: Bearer <token>` header (the name in any letter case) and
/// returns its token.
pub fn extract_token(r: &str) -> (t: Option<String>)
    ensures
        match first_bearer(r@, 0, r@.len() as int) {
            Some(b) => t is Some && t->Some_0@ == b,
            None => t is None,
        },
{
    let s = chars_of(r);
    let n = s.len();
    let mut i: usize = 0;
    while i < n
        invariant
            s@ == r@,
            n == s@.len(),
            i <= n,
            first_bearer(s@, i as int, n as int) == first_bearer(s@, 0, n as int),
        decreases n - i,
    {
        let nl = find_char_in(&s, i, n, '\n');
        match line_bearer_in(&s, r, i, nl) {
            Some(t) => {
                return Some(t);
            },
            None => {},
        }
        if nl < n {
            i = nl + 1;
        } else {
            i = n;
        }
    }
    None
}

/// Signs tokens with a private key loaded once, for a fixed time to live.
pub struct TokenIssuer {
    /// `None` where the configured key was absent or malformed.
    pub signing_key: Option<jsonwebtoken::EncodingKey>,
    /// Seconds a token stays valid after issuance.
    pub ttl: u64,
}

impl TokenIssuer {
    /// Loads the private key from its PEM text, after turning escaped line breaks into real ones.
    pub fn new(private_pem: &str, ttl: u64) -> (r: TokenIssuer)
        ensures
            r.ttl == ttl,
            r.signing_key is Some <==> private_pem_accepted(unescape_newlines(private_pem@)),
    {
        let pem = normalize_newlines(private_pem);
        let signing_key = match encoding_key_from_pem(pem.as_str()) {
            Ok(k) => Some(k),
            Err(_) => None,
        };
        TokenIssuer { signing_key, ttl }
    }

    /// Signs `claims`.
    pub fn sign(&self, claims: &Claims) -> (r: Result<String, CustomError>)
        ensures
            (r == Err::<String, CustomError>(CustomError::KeyLoadError)) <==> self.signing_key is None,
            r is Ok ==> is_token_text(r->Ok_0@),
            r is Err ==> r == Err::<String, CustomError>(CustomError::KeyLoadError) || r == Err::<
                String,
                CustomError,
            >(CustomError::EncodeError),
    {
        match &self.signing_key {
            None => Err(CustomError::KeyLoadError),
            Some(key) => match sign_rs256(claims.sub.as_str(), claims.exp, key) {
                Ok(t) => Ok(t),
                Err(_) => Err(CustomError::EncodeError),
            },
        }
    }

    /// Issues a token for `user` at time `now` (seconds since the Unix epoch),
    /// with the claims `issued_claims(user.username, now, ttl)`.
    pub fn create_jwt(&self, user: &User, now: u64) -> (r: Result<String, CustomError>)
        ensures
            (r == Err::<String, CustomError>(CustomError::KeyLoadError)) <==> self.signing_key is None,
            self.signing_key is Some && now + self.ttl > u64::MAX ==> r == Err::<String, CustomError>(
                CustomError::EncodeError,
            ),
            r is Ok ==> is_token_text(r->Ok_0@),
            r is Err ==> r == Err::<String, CustomError>(CustomError::KeyLoadError) || r == Err::<
                String,
                CustomError,
            >(CustomError::EncodeError),
    {
        if self.signing_key.is_none() {
            return Err(CustomError::KeyLoadError);
        }
        match Claims::issued(user, now, self.ttl) {
            None => Err(CustomError::EncodeError),
            Some(claims) => self.sign(&claims),
        }
    }
}

/// Loads the public key that checks token signatures, after turning escaped
/// line breaks into real ones.
pub fn load_decoding_key(public_pem: &str) -> (r: Result<jsonwebtoken::DecodingKey, CustomError>)
    ensures
        r is Ok <==> public_pem_accepted(unescape_newlines(public_pem@)),
        r is Err ==> r == Err::<jsonwebtoken::DecodingKey, CustomError>(CustomError::KeyLoadError),
{
    let pem = normalize_newlines(public_pem);
    match decoding_key_from_pem(pem.as_str()) {
        Ok(k) => Ok(k),
        Err(_) => Err(CustomError::KeyLoadError),
    }
}

} // verus!
