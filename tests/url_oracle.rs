use pinterest_login::login_bot::{check_login_url, is_login_url};
use pinterest_login::PinterestLoginError;

#[test]
fn login_page_addresses_are_recognised() {
    assert!(is_login_url("https://pinterest.com/login"));
    assert!(is_login_url("https://www.pinterest.com/login?x=1"));
    assert!(is_login_url("http://pinterest.com/login/"));
    assert!(is_login_url("https://pinterest.com/login#top"));
    assert!(is_login_url("http://www.pinterest.com/login"));
}

#[test]
fn other_addresses_are_not_the_login_page() {
    assert!(!is_login_url("https://pinterest.com/home"));
    assert!(!is_login_url("https://pinterest.com/loginhelp"));
    assert!(!is_login_url("https://pinterest.com/"));
    assert!(!is_login_url("ftp://pinterest.com/login"));
    assert!(!is_login_url("https://example.com/login"));
    assert!(!is_login_url("https://wwwpinterest.com/login"));
    assert!(!is_login_url(""));
}

#[test]
fn check_login_accepts_a_page_away_from_login() {
    assert!(check_login_url(Some("https://www.pinterest.com/")).is_ok());
    assert!(check_login_url(Some("https://pinterest.com/home")).is_ok());
}

#[test]
fn check_login_rejects_the_login_page_again() {
    let r = check_login_url(Some("https://pinterest.com/login/?next=%2F"));
    assert!(matches!(r, Err(PinterestLoginError::AuthenticationError)));
}

#[test]
fn check_login_rejects_a_missing_address() {
    assert!(matches!(check_login_url(None), Err(PinterestLoginError::AuthenticationError)));
}
