//! Credentials.

use corepc_client::auth::parse_cookie_line;
use corepc_client::error::{AuthError, Error};
use corepc_client::Auth;

#[test]
fn cookie_line_splits_at_first_colon() {
    let (u, p) = parse_cookie_line("alice:secret123").unwrap();
    assert_eq!(u, "alice");
    assert_eq!(p, "secret123");

    let (u, p) = parse_cookie_line("__cookie__:a:b").unwrap();
    assert_eq!(u, "__cookie__");
    assert_eq!(p, "a:b");

    let (u, p) = parse_cookie_line(":").unwrap();
    assert_eq!(u, "");
    assert_eq!(p, "");
}

#[test]
fn cookie_line_without_colon_is_invalid() {
    assert_eq!(parse_cookie_line("alicesecret123"), Err(AuthError::InvalidCookieFile));
    assert_eq!(parse_cookie_line(""), Err(AuthError::InvalidCookieFile));
}

#[test]
fn user_pass_of_each_method() {
    assert_eq!(Auth::NoAuth.get_user_pass(None).unwrap(), (None, None));
    assert_eq!(
        Auth::UserPass("u".to_string(), "p".to_string()).get_user_pass(None).unwrap(),
        (Some("u".to_string()), Some("p".to_string()))
    );
    assert_eq!(
        Auth::CookieFile("/tmp/.cookie".to_string()).get_user_pass(Some("alice:secret123")).unwrap(),
        (Some("alice".to_string()), Some("secret123".to_string()))
    );
    assert!(matches!(
        Auth::CookieFile("/tmp/.cookie".to_string()).get_user_pass(None),
        Err(Error::Auth(AuthError::InvalidCookieFile))
    ));
    assert!(matches!(
        Auth::CookieFile("/tmp/.cookie".to_string()).get_user_pass(Some("nocolon")),
        Err(Error::Auth(AuthError::InvalidCookieFile))
    ));
}
