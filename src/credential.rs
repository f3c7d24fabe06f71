//! One-way password hashing and verification.

use vstd::prelude::*;
use crate::error::CustomError;

verus! {

/// What `bcrypt::verify` answers for a password and a stored hash
/// (`None` where it reports an error, such as a malformed hash).
pub uninterp spec fn bcrypt_verdict(password: Seq<char>, hash: Seq<char>) -> Option<bool>;

/// Relies on `bcrypt::verify`: the answer depends on its two arguments alone.
#[verifier::external_body]
fn bcrypt_check(password: &str, hash: &str) -> (r: Option<bool>)
    ensures
        r == bcrypt_verdict(password@, hash@),
{
    bcrypt::verify(password, hash).ok()
}

/// The decimal digit `d`.
pub open spec fn digit(d: int) -> char {
    seq!['0', '1', '2', '3', '4', '5', '6', '7', '8', '9'][d]
}

/// `$2b$`, the cost in two digits, then `$`: how a bcrypt hash begins.
pub open spec fn bcrypt_prefix(cost: u32) -> Seq<char> {
    seq!['$', '2', 'b', '$', digit((cost / 10) as int), digit((cost % 10) as int), '$']
}

/// A character of bcrypt's base64 alphabet.
pub open spec fn is_bcrypt_char(c: char) -> bool {
    c == '.' || c == '/' || ('A' <= c && c <= 'Z') || ('a' <= c && c <= 'z') || ('0' <= c && c
        <= '9')
}

/// A bcrypt hash at `cost`: the prefix, then 22 salt and 31 hash characters.
pub open spec fn is_bcrypt_hash(h: Seq<char>, cost: u32) -> bool {
    &&& h.len() == 60
    &&& h.subrange(0, 7) == bcrypt_prefix(cost)
    &&& forall|i: int| 7 <= i < 60 ==> is_bcrypt_char(#[trigger] h[i])
}

/// Relies on `bcrypt::hash`: with a random salt it gives the `$2b$` string at
/// that cost (22 salt and 31 hash characters in bcrypt's base64) that
/// `bcrypt::verify` accepts for `password`; it fails when the cost is outside
/// 4..=31 or the system's random source fails.
#[verifier::external_body]
fn bcrypt_hash(password: &str, cost: u32) -> (r: Option<String>)
    ensures
        r is Some ==> is_bcrypt_hash(r->Some_0@, cost) && bcrypt_verdict(password@, r->Some_0@)
            == Some(true),
        !(4 <= cost <= 31) ==> r is None,
{
    bcrypt::hash(password, cost).ok()
}

/// `plain` is the password that `hashed` was made from; malformed hashes match nothing.
pub open spec fn password_matches(plain: Seq<char>, hashed: Seq<char>) -> bool {
    bcrypt_verdict(plain, hashed) == Some(true)
}

/// Hashes `value` at the given cost, with a random salt; the result is a
/// 60-character bcrypt string that verifies against `value`.
pub fn encrypt(value: &str, cost: u32) -> (r: Result<String, CustomError>)
    ensures
        r is Ok ==> is_bcrypt_hash(r->Ok_0@, cost) && password_matches(value@, r->Ok_0@),
        r is Err ==> r == Err::<String, CustomError>(CustomError::HashError),
        !(4 <= cost <= 31) ==> r is Err,
{
    match bcrypt_hash(value, cost) {
        Some(h) => Ok(h),
        None => Err(CustomError::HashError),
    }
}

/// Checks `value` against a stored hash; a malformed hash gives `false`.
pub fn compare(value: &str, hashed: &str) -> (r: bool)
    ensures
        r == password_matches(value@, hashed@),
{
    match bcrypt_check(value, hashed) {
        Some(ok) => ok,
        None => false,
    }
}

} // verus!
