use pinterest_login::config_builder::DefaultBrowserConfigBuilder;
use pinterest_login::PinterestLoginError;
use std::time::Duration;

#[test]
fn new_keeps_the_settings() {
    let b = DefaultBrowserConfigBuilder::new(false, Some(Duration::from_secs(2)), None);
    assert!(!b.headless());
    assert_eq!(b.request_timeout(), Some(Duration::from_secs(2)));
    assert_eq!(b.launch_timeout(), None);
}

#[test]
fn default_is_headless_with_five_second_requests() {
    let b = DefaultBrowserConfigBuilder::default();
    assert!(b.headless());
    assert_eq!(b.request_timeout(), Some(Duration::from_secs(5)));
    assert_eq!(b.launch_timeout(), None);
}

#[test]
fn build_fails_only_as_a_configuration_error() {
    let b = DefaultBrowserConfigBuilder::new(true, Some(Duration::from_secs(1)), Some(Duration::from_secs(1)));
    match b.build_browser_config() {
        Ok(_) => {}
        Err(e) => assert!(matches!(e, PinterestLoginError::BrowserConfigBuildError(_))),
    }
}
