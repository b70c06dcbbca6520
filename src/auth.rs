//! Log-in decisions: password check, token claims and lifetime, and the
//! checks made when an OAuth provider calls back.

use vstd::prelude::*;
use crate::reservation::clone_optional_string;
use crate::time::Instant;
use vstd::string::StringExecFns;

verus! {

/// How long a session token stays valid, in seconds.
pub const TOKEN_LIFETIME_SECS: i64 = 86400;

/// Elevated roles named in tokens.
#[derive(Clone, Copy, Debug, PartialEq, Eq, Structural)]
pub enum Roles {
    Treasurer,
    Admin,
}

/// What a session token says of its holder.
#[derive(Debug)]
pub struct Claims {
    /// The user, if one is registered under the email.
    pub sub: Option<u128>,
    pub email: Option<String>,
    /// Expiry, in seconds since the epoch.
    pub exp: usize,
}

/// Credentials sent to log in.
#[derive(Debug)]
pub struct LoginOrCreateRequest {
    pub email: String,
    pub password: String,
}

/// The token handed back on log-in.
#[derive(Debug)]
pub struct LoginResponse {
    pub token: String,
}

/// What storage holds of the user registered under an email.
#[derive(Debug)]
pub struct UserCredentials {
    pub id: u128,
    pub email: Option<String>,
    /// A bcrypt hash; absent for users who only log in through a provider.
    pub password_hash: Option<String>,
}

/// Why a log-in was refused.
#[derive(Clone, Copy, Debug, PartialEq, Eq, Structural)]
pub enum LoginError {
    /// The password does not match the stored hash.
    InvalidCredentials,
    /// The stored hash could not be checked.
    VerificationFailed,
}

/// Query parameters of a request to log in through a provider.
#[derive(Debug)]
pub struct LoginParams {
    /// Where to send the user once logged in.
    pub redirect: Option<String>,
}

/// Query parameters of a provider's call back.
#[derive(Debug)]
pub struct OAuthRequest {
    pub code: String,
    pub state: String,
}

/// Why a provider's call back was refused.
#[derive(Clone, Copy, Debug, PartialEq, Eq, Structural)]
pub enum OAuthError {
    /// No state was stored when the log-in began.
    MissingState,
    /// The state sent back differs from the one stored.
    InvalidState,
}

/// Whether `password` matches the bcrypt hash `hash`; `None` where the hash
/// cannot be read.
pub uninterp spec fn bcrypt_verdict(password: Seq<char>, hash: Seq<char>) -> Option<bool>;

/// Relies on bcrypt::verify: it hashes the password with the cost and salt
/// read from `hash` and compares; a hash it cannot read is an error, here `None`.
#[verifier::external_body]
fn verify_password(password: &str, hash: &str) -> (r: Option<bool>)
    ensures
        r == bcrypt_verdict(password@, hash@),
{
    bcrypt::verify(password, hash).ok()
}

/// The claims of a token for `user` (none registered: `None`) at expiry `exp`,
/// given what checking the password gave where a check was needed.
pub open spec fn login_result(user: Option<UserCredentials>, verdict: Option<bool>, exp: usize) -> Result<Claims, LoginError> {
    match user {
        None => Ok(Claims { sub: None, email: None, exp }),
        Some(u) => if u.password_hash is None || verdict == Some(true) {
            Ok(Claims { sub: Some(u.id), email: u.email, exp })
        } else if verdict == Some(false) {
            Err(LoginError::InvalidCredentials)
        } else {
            Err(LoginError::VerificationFailed)
        },
    }
}

/// The password check that a log-in as `user` with `password` calls for, if any.
pub open spec fn password_verdict(password: Seq<char>, user: Option<UserCredentials>) -> Option<bool> {
    match user {
        Some(u) => match u.password_hash {
            Some(h) => bcrypt_verdict(password, h@),
            None => None,
        },
        None => None,
    }
}

/// Decides a log-in from the stored user and the outcome of the password check.
pub fn login_outcome(user: &Option<UserCredentials>, verdict: Option<bool>, exp: usize) -> (r: Result<Claims, LoginError>)
    ensures
        r == login_result(*user, verdict, exp),
{
    match user {
        None => Ok(Claims { sub: None, email: None, exp }),
        Some(u) => {
            if u.password_hash.is_some() {
                match verdict {
                    Some(true) => {},
                    Some(false) => return Err(LoginError::InvalidCredentials),
                    None => return Err(LoginError::VerificationFailed),
                }
            }
            Ok(Claims { sub: Some(u.id), email: clone_optional_string(&u.email), exp })
        },
    }
}

/// Logs in with `request`, where `user` is what storage holds under its email.
/// A stored password hash must match; a user without one, or an email with no
/// user, gets a token without a check.
pub fn login(request: &LoginOrCreateRequest, user: &Option<UserCredentials>, exp: usize) -> (r: Result<Claims, LoginError>)
    ensures
        r == login_result(*user, password_verdict(request.password@, *user), exp),
{
    let verdict = match user {
        Some(u) => match &u.password_hash {
            Some(h) => verify_password(request.password.as_str(), h.as_str()),
            None => None,
        },
        None => None,
    };
    login_outcome(user, verdict, exp)
}

/// Expiry of a token issued at `now`, or `None` where it is not a valid
/// unsigned timestamp.
pub fn get_token_exp(now: Instant) -> (r: Option<usize>)
    ensures
        r == (if 0 <= now.secs + 86400 <= usize::MAX {
            Some((now.secs + 86400) as usize)
        } else {
            None::<usize>
        }),
{
    let exp = now.secs as i128 + TOKEN_LIFETIME_SECS as i128;
    if exp < 0 || exp > usize::MAX as i128 {
        None
    } else {
        Some(exp as usize)
    }
}

impl OAuthRequest {
    /// The state sent back must equal the one stored when the log-in began.
    pub fn check_state(&self, stored_state: Option<&String>) -> (r: Result<(), OAuthError>)
        ensures
            r == (match stored_state {
                None => Err(OAuthError::MissingState),
                Some(s) => if s@ == self.state@ {
                    Ok(())
                } else {
                    Err(OAuthError::InvalidState)
                },
            }),
    {
        match stored_state {
            None => Err(OAuthError::MissingState),
            Some(s) => if *s == self.state {
                Ok(())
            } else {
                Err(OAuthError::InvalidState)
            },
        }
    }
}

/// Where to send a user after a provider log-in: the address remembered from
/// the log-in's parameters, else `default_url`, with the token as a query.
pub fn post_login_location(remembered: Option<&String>, default_url: &String, token: &String) -> (r: String)
    ensures
        r@ == (match remembered {
            Some(t) => t@,
            None => default_url@,
        }) + "?token="@ + token@,
{
    let mut location = match remembered {
        Some(t) => t.clone(),
        None => default_url.clone(),
    };
    location.append("?token=");
    location.append(token.as_str());
    location
}

impl LoginParams {
    /// The address to remember for after the log-in, if one was given.
    pub fn redirect_to_remember(&self) -> (r: Option<String>)
        ensures
            r == self.redirect,
    {
        clone_optional_string(&self.redirect)
    }
}

/// The subject and email of the token issued after a provider log-in, from
/// the email the provider reported and the user registered under it: a
/// registered user is named; an unknown email is kept so that an account can
/// be made for it.
pub fn token_subject(provider_email: Option<String>, registered: &Option<UserCredentials>) -> (r: (
    Option<u128>,
    Option<String>,
))
    ensures
        r == (match provider_email {
            Some(e) => match *registered {
                Some(u) => (Some(u.id), u.email),
                None => (None::<u128>, Some(e)),
            },
            None => (None::<u128>, None::<String>),
        }),
{
    match provider_email {
        Some(e) => match registered {
            Some(u) => (Some(u.id), clone_optional_string(&u.email)),
            None => (None, Some(e)),
        },
        None => (None, None),
    }
}

/// `s` begins with `Bearer ` (with the space).
pub open spec fn has_bearer_prefix(s: Seq<char>) -> bool {
    s.len() >= 7 && s.subrange(0, 7) == seq!['B', 'e', 'a', 'r', 'e', 'r', ' ']
}

/// The token of an `Authorization` header of the form `Bearer <token>`.
pub fn bearer_token(header: &str) -> (r: Option<&str>)
    ensures
        has_bearer_prefix(header@) ==> r is Some && r->0@ == header@.subrange(7, header@.len() as int),
        !has_bearer_prefix(header@) ==> r is None,
{
    let n = header.unicode_len();
    if n < 7 {
        return None;
    }
    let prefix = header.substring_char(0, 7);
    let ghost expected = seq!['B', 'e', 'a', 'r', 'e', 'r', ' '];
    let mut i: usize = 0;
    while i < 7
        invariant
            i <= 7,
            n == header@.len(),
            n >= 7,
            prefix@ == header@.subrange(0, 7),
            expected == seq!['B', 'e', 'a', 'r', 'e', 'r', ' '],
            forall|k: int| 0 <= k < i ==> prefix@[k] == expected[k],
        decreases 7 - i,
    {
        let c = prefix.get_char(i);
        let want = if i == 0 {
            'B'
        } else if i == 1 {
            'e'
        } else if i == 2 {
            'a'
        } else if i == 3 {
            'r'
        } else if i == 4 {
            'e'
        } else if i == 5 {
            'r'
        } else {
            ' '
        };
        assert(want == expected[i as int]);
        if c != want {
            assert(prefix@ != expected);
            return None;
        }
        i = i + 1;
    }
    assert(prefix@ =~= expected);
    Some(header.substring_char(7, n))
}

} // verus!
