use my_hood::auth::{
    get_token_exp, login, login_outcome, post_login_location, LoginError, LoginOrCreateRequest,
    LoginParams, OAuthError, OAuthRequest, UserCredentials, token_subject, bearer_token,
};
use my_hood::clock::{Clock, SystemClock};
use my_hood::time::Instant;

fn user(hash: Option<String>) -> Option<UserCredentials> {
    Some(UserCredentials { id: 42, email: Some("test@gmail.com".to_owned()), password_hash: hash })
}

fn request(password: &str) -> LoginOrCreateRequest {
    LoginOrCreateRequest { email: "test@gmail.com".to_owned(), password: password.to_owned() }
}

#[test]
fn login_checks_the_stored_hash() {
    let hash = bcrypt::hash("secret", 4).unwrap();
    let claims = login(&request("secret"), &user(Some(hash.clone())), 1000).unwrap();
    assert_eq!(claims.sub, Some(42));
    assert_eq!(claims.email.as_deref(), Some("test@gmail.com"));
    assert_eq!(claims.exp, 1000);
    let refused = login(&request("wrong"), &user(Some(hash)), 1000);
    assert_eq!(refused.unwrap_err(), LoginError::InvalidCredentials);
}

#[test]
fn login_with_unreadable_hash_fails() {
    let r = login(&request("secret"), &user(Some("not a hash".to_owned())), 1000);
    assert_eq!(r.unwrap_err(), LoginError::VerificationFailed);
}

#[test]
fn login_without_hash_or_user() {
    let claims = login(&request("anything"), &user(None), 7).unwrap();
    assert_eq!(claims.sub, Some(42));
    let claims = login(&request("anything"), &None, 7).unwrap();
    assert_eq!(claims.sub, None);
    assert_eq!(claims.email, None);
    assert_eq!(claims.exp, 7);
}

#[test]
fn login_outcome_from_a_verdict() {
    let stored = user(Some("$2b$04$abc".to_owned()));
    assert_eq!(login_outcome(&stored, Some(true), 5).unwrap().sub, Some(42));
    assert_eq!(login_outcome(&stored, Some(false), 5).unwrap_err(), LoginError::InvalidCredentials);
    assert_eq!(login_outcome(&stored, None, 5).unwrap_err(), LoginError::VerificationFailed);
    assert_eq!(login_outcome(&user(None), Some(false), 5).unwrap().sub, Some(42));
}

#[test]
fn token_expires_a_day_later() {
    assert_eq!(get_token_exp(Instant::from_unix_seconds(1_704_092_400)), Some(1_704_178_800));
    assert_eq!(get_token_exp(Instant::from_unix_seconds(-86_400)), Some(0));
    assert_eq!(get_token_exp(Instant::from_unix_seconds(-86_401)), None);
}

#[test]
fn oauth_state_must_match() {
    let req = OAuthRequest { code: "c".to_owned(), state: "s1".to_owned() };
    assert_eq!(req.check_state(Some(&"s1".to_owned())), Ok(()));
    assert_eq!(req.check_state(Some(&"s2".to_owned())), Err(OAuthError::InvalidState));
    assert_eq!(req.check_state(None), Err(OAuthError::MissingState));
}

#[test]
fn post_login_location_carries_the_token() {
    let default_url = "https://hood.example/home".to_owned();
    let token = "abc.def".to_owned();
    assert_eq!(post_login_location(None, &default_url, &token), "https://hood.example/home?token=abc.def");
    let remembered = "https://hood.example/fields".to_owned();
    assert_eq!(
        post_login_location(Some(&remembered), &default_url, &token),
        "https://hood.example/fields?token=abc.def"
    );
    let params = LoginParams { redirect: Some(remembered.clone()) };
    assert_eq!(params.redirect_to_remember(), Some(remembered));
}

#[test]
fn system_clock_reads_the_present() {
    let now = SystemClock.now();
    // After 2024-01-01.
    assert!(now.secs > 1_704_067_200);
}

#[test]
fn provider_login_subject() {
    let (sub, email) = token_subject(Some("a@b.c".to_owned()), &user(None));
    assert_eq!(sub, Some(42));
    assert_eq!(email.as_deref(), Some("test@gmail.com"));
    let (sub, email) = token_subject(Some("a@b.c".to_owned()), &None);
    assert_eq!(sub, None);
    assert_eq!(email.as_deref(), Some("a@b.c"));
    let (sub, email) = token_subject(None, &None);
    assert_eq!((sub, email), (None, None));
}

#[test]
fn bearer_token_from_header() {
    assert_eq!(bearer_token("Bearer abc.def.ghi"), Some("abc.def.ghi"));
    assert_eq!(bearer_token("Bearer "), Some(""));
    assert_eq!(bearer_token("bearer abc"), None);
    assert_eq!(bearer_token("Basic abc"), None);
    assert_eq!(bearer_token("Bearer"), None);
    assert_eq!(bearer_token("Bearer \u{e9}t\u{e9}"), Some("\u{e9}t\u{e9}"));
}
