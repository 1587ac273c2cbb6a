//! Building the browser configuration.
use vstd::prelude::*;

use crate::PinterestLoginError;

verus! {

/// Relies on the shape of chromiumoxide's launch configuration only: it is
/// handed to the driver and never read here.
#[verifier::external_type_specification]
#[verifier::external_body]
pub struct ExBrowserConfig(chromiumoxide::BrowserConfig);

/// Relies on the shape of chromiumoxide's configuration builder only.
#[verifier::external_type_specification]
#[verifier::external_body]
pub struct ExConfigBuilder(chromiumoxide::browser::BrowserConfigBuilder);

/// The builder's browser runs without a window (its headless mode is not
/// `HeadlessMode::False`).
pub uninterp spec fn builder_headless(b: chromiumoxide::browser::BrowserConfigBuilder) -> bool;

/// The builder's timeout for one request to the browser.
pub uninterp spec fn builder_request_timeout(
    b: chromiumoxide::browser::BrowserConfigBuilder,
) -> core::time::Duration;

/// The builder's timeout for the browser's launch.
pub uninterp spec fn builder_launch_timeout(
    b: chromiumoxide::browser::BrowserConfigBuilder,
) -> core::time::Duration;

/// The configuration's browser runs without a window.
pub uninterp spec fn config_headless(c: chromiumoxide::BrowserConfig) -> bool;

/// The configuration's timeout for one request to the browser.
pub uninterp spec fn config_request_timeout(c: chromiumoxide::BrowserConfig) -> core::time::Duration;

/// The configuration's timeout for the browser's launch.
pub uninterp spec fn config_launch_timeout(c: chromiumoxide::BrowserConfig) -> core::time::Duration;

/// Relies on chromiumoxide's `BrowserConfig::builder`: a builder with the
/// crate's defaults, whose headless mode is `HeadlessMode::True`.
pub assume_specification[ chromiumoxide::BrowserConfig::builder ]() -> (r:
    chromiumoxide::browser::BrowserConfigBuilder)
    ensures
        builder_headless(r),
;

/// Relies on chromiumoxide's `BrowserConfigBuilder::with_head`: sets the
/// headless mode to `HeadlessMode::False` and leaves the rest.
pub assume_specification[ chromiumoxide::browser::BrowserConfigBuilder::with_head ](
    b: chromiumoxide::browser::BrowserConfigBuilder,
) -> (r: chromiumoxide::browser::BrowserConfigBuilder)
    ensures
        !builder_headless(r),
        builder_request_timeout(r) == builder_request_timeout(b),
        builder_launch_timeout(r) == builder_launch_timeout(b),
;

/// Relies on chromiumoxide's `BrowserConfigBuilder::request_timeout`: sets how
/// long one request to the browser may take, and leaves the rest.
pub assume_specification[ chromiumoxide::browser::BrowserConfigBuilder::request_timeout ](
    b: chromiumoxide::browser::BrowserConfigBuilder,
    timeout: core::time::Duration,
) -> (r: chromiumoxide::browser::BrowserConfigBuilder)
    ensures
        builder_headless(r) == builder_headless(b),
        builder_request_timeout(r) == timeout,
        builder_launch_timeout(r) == builder_launch_timeout(b),
;

/// Relies on chromiumoxide's `BrowserConfigBuilder::launch_timeout`: sets how
/// long the browser may take to start, and leaves the rest.
pub assume_specification[ chromiumoxide::browser::BrowserConfigBuilder::launch_timeout ](
    b: chromiumoxide::browser::BrowserConfigBuilder,
    timeout: core::time::Duration,
) -> (r: chromiumoxide::browser::BrowserConfigBuilder)
    ensures
        builder_headless(r) == builder_headless(b),
        builder_request_timeout(r) == builder_request_timeout(b),
        builder_launch_timeout(r) == timeout,
;

/// Relies on chromiumoxide's `BrowserConfigBuilder::build`: it looks for a
/// browser executable on this machine, so it may fail, with a message; when it
/// succeeds, the configuration carries the builder's headless mode and both
/// timeouts.
pub assume_specification[ chromiumoxide::browser::BrowserConfigBuilder::build ](
    b: chromiumoxide::browser::BrowserConfigBuilder,
) -> (r: core::result::Result<chromiumoxide::BrowserConfig, String>)
    ensures
        r matches Ok(c) ==> config_headless(c) == builder_headless(b) && config_request_timeout(c)
            == builder_request_timeout(b) && config_launch_timeout(c) == builder_launch_timeout(b),
;

/// A duration of `secs` whole seconds.
pub uninterp spec fn whole_seconds(secs: u64) -> core::time::Duration;

/// Relies on `Duration::from_secs`, which depends on its argument alone.
#[verifier::external_body]
fn from_secs(secs: u64) -> (r: core::time::Duration)
    ensures
        r == whole_seconds(secs),
{
    core::time::Duration::from_secs(secs)
}

/// Builds the configuration from three settings: headless or not, and two
/// optional timeouts.
pub struct DefaultBrowserConfigBuilder {
    headless: bool,
    request_timeout: Option<core::time::Duration>,
    launch_timeout: Option<core::time::Duration>,
}

impl DefaultBrowserConfigBuilder {
    pub closed spec fn spec_headless(&self) -> bool {
        self.headless
    }

    pub closed spec fn spec_request_timeout(&self) -> Option<core::time::Duration> {
        self.request_timeout
    }

    pub closed spec fn spec_launch_timeout(&self) -> Option<core::time::Duration> {
        self.launch_timeout
    }

    /// A builder for a browser that is headless or not, with an optional
    /// timeout for each request and one for the launch.
    pub fn new(
        headless: bool,
        request_timeout: Option<core::time::Duration>,
        launch_timeout: Option<core::time::Duration>,
    ) -> (r: Self)
        ensures
            r.spec_headless() == headless,
            r.spec_request_timeout() == request_timeout,
            r.spec_launch_timeout() == launch_timeout,
    {
        Self { headless, request_timeout, launch_timeout }
    }

    /// Whether the browser runs without a window.
    pub fn headless(&self) -> (r: bool)
        ensures
            r == self.spec_headless(),
    {
        self.headless
    }

    /// The timeout of each request to the browser, if any.
    pub fn request_timeout(&self) -> (r: Option<core::time::Duration>)
        ensures
            r == self.spec_request_timeout(),
    {
        self.request_timeout
    }

    /// The timeout of the browser's launch, if any.
    pub fn launch_timeout(&self) -> (r: Option<core::time::Duration>)
        ensures
            r == self.spec_launch_timeout(),
    {
        self.launch_timeout
    }

    /// Makes the launch configuration. Whether it succeeds depends on finding a
    /// browser on this machine; a failure is always a configuration error,
    /// raised before any browser process exists.
    pub fn build_browser_config(&self) -> (r: Result<chromiumoxide::BrowserConfig, PinterestLoginError>)
        ensures
            r matches Err(e) ==> e is BrowserConfigBuildError,
            r matches Ok(c) ==> config_headless(c) == self.spec_headless() && (
            self.spec_request_timeout() matches Some(t) ==> config_request_timeout(c) == t) && (
            self.spec_launch_timeout() matches Some(t) ==> config_launch_timeout(c) == t),
    {
        let mut builder = if self.headless {
            chromiumoxide::BrowserConfig::builder()
        } else {
            chromiumoxide::BrowserConfig::builder().with_head()
        };
        if let Some(timeout) = self.request_timeout {
            builder = builder.request_timeout(timeout);
        }
        if let Some(timeout) = self.launch_timeout {
            builder = builder.launch_timeout(timeout);
        }
        match builder.build() {
            Ok(config) => Ok(config),
            Err(message) => Err(PinterestLoginError::BrowserConfigBuildError(message)),
        }
    }
}

impl Default for DefaultBrowserConfigBuilder {
    /// Headless, five seconds per request, no launch timeout.
    fn default() -> (r: Self)
        ensures
            r.spec_headless(),
            r.spec_request_timeout() == Some(whole_seconds(5)),
            r.spec_launch_timeout() is None,
    {
        Self::new(true, Some(from_secs(5)), None)
    }
}

} // verus!
