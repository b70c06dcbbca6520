//! Stored passwords: kept as bcrypt hashes, hashing any that arrive in plain text.

use vstd::prelude::*;
use vstd::string::StrSliceExecFns;
use crate::auth::bcrypt_verdict;

verus! {

/// The bcrypt cost used for new hashes.
pub const HASH_COST: u32 = 12;

/// A character of bcrypt's base-64 alphabet: `.`, `/`, letters and digits.
pub open spec fn is_hash_char(c: char) -> bool {
    c == '.' || c == '/' || ('A' <= c && c <= 'Z') || ('a' <= c && c <= 'z') || ('0' <= c && c <= '9')
}

/// `s` has the shape of a bcrypt hash: `$2a$`, `$2b$`, `$2x$` or `$2y$`, two
/// digits of cost, `$`, then 53 characters of salt and hash.
pub open spec fn is_bcrypt_hash(s: Seq<char>) -> bool {
    &&& s.len() == 60
    &&& s[0] == '$' && s[1] == '2'
    &&& (s[2] == 'a' || s[2] == 'b' || s[2] == 'x' || s[2] == 'y')
    &&& s[3] == '$'
    &&& '0' <= s[4] && s[4] <= '9' && '0' <= s[5] && s[5] <= '9'
    &&& s[6] == '$'
    &&& forall|i: int| 7 <= i < 60 ==> is_hash_char(#[trigger] s[i])
}

/// Why a password could not be stored.
#[derive(Clone, Copy, Debug, PartialEq, Eq, Structural)]
pub enum PasswordError {
    /// Hashing failed (no randomness for the salt).
    HashFailed,
}

fn hash_char(c: char) -> (r: bool)
    ensures
        r == is_hash_char(c),
{
    c == '.' || c == '/' || ('A' <= c && c <= 'Z') || ('a' <= c && c <= 'z') || ('0' <= c && c <= '9')
}

/// Whether `s` already has the shape of a bcrypt hash.
pub fn looks_like_bcrypt_hash(s: &str) -> (r: bool)
    ensures
        r == is_bcrypt_hash(s@),
{
    if s.unicode_len() != 60 {
        return false;
    }
    let v = s.get_char(2);
    if !(s.get_char(0) == '$' && s.get_char(1) == '2' && (v == 'a' || v == 'b' || v == 'x' || v == 'y')
        && s.get_char(3) == '$') {
        return false;
    }
    let d0 = s.get_char(4);
    let d1 = s.get_char(5);
    if !('0' <= d0 && d0 <= '9' && '0' <= d1 && d1 <= '9' && s.get_char(6) == '$') {
        return false;
    }
    let mut i: usize = 7;
    while i < 60
        invariant
            7 <= i <= 60,
            s@.len() == 60,
            forall|k: int| 7 <= k < i ==> is_hash_char(#[trigger] s@[k]),
        decreases 60 - i,
    {
        if !hash_char(s.get_char(i)) {
            return false;
        }
        i = i + 1;
    }
    true
}

/// Relies on bcrypt::hash: with a cost in 4..=31 it fails only when no random
/// salt can be had; its output is formatted as `$2b$`, the cost in two digits,
/// `$`, then 22 + 31 characters of bcrypt's base-64 alphabet; checking the
/// same password against it (bcrypt::verify) re-hashes with the same cost and
/// salt and so succeeds.
#[verifier::external_body]
fn bcrypt_hash(password: &str, cost: u32) -> (r: Option<String>)
    requires
        4 <= cost <= 31,
    ensures
        r is Some ==> is_bcrypt_hash(r->0@),
        r is Some ==> bcrypt_verdict(password@, r->0@) == Some(true),
{
    bcrypt::hash(password, cost).ok()
}

/// The password to store: none stays none, a bcrypt hash is kept as it is,
/// anything else is hashed.
pub fn prepare_password(password: Option<String>) -> (r: Result<Option<String>, PasswordError>)
    ensures
        password is None ==> r == Ok::<Option<String>, PasswordError>(None),
        password is Some && is_bcrypt_hash(password->0@) ==> r == Ok::<Option<String>, PasswordError>(
            password,
        ),
        password is Some && !is_bcrypt_hash(password->0@) ==> (r is Ok ==> r->Ok_0 is Some
            && is_bcrypt_hash(r->Ok_0->0@) && bcrypt_verdict(password->0@, r->Ok_0->0@) == Some(
            true,
        )) && (r is Err ==> r == Err::<Option<String>, PasswordError>(
            PasswordError::HashFailed,
        )),
{
    match password {
        None => Ok(None),
        Some(plain) => {
            if looks_like_bcrypt_hash(plain.as_str()) {
                Ok(Some(plain))
            } else {
                match bcrypt_hash(plain.as_str(), HASH_COST) {
                    Some(h) => Ok(Some(h)),
                    None => Err(PasswordError::HashFailed),
                }
            }
        },
    }
}

} // verus!
