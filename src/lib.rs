//! Signs into Pinterest through a remotely controlled browser and hands back
//! the session cookies.
//!
//! The browser driver, the async runtime and the terminal live outside this
//! library. What is here is the part that decides: the browser configuration,
//! the login flow as a state machine, the test that tells a rejected login from
//! an accepted one, and the cookie map.
use vstd::prelude::*;

pub mod config_builder;
pub mod cookies;
pub mod flow;
pub mod login_bot;

verus! {

/// The address of the Pinterest login page.
pub const PINTEREST_LOGIN_URL: &'static str = "https://pinterest.com/login";

/// Why a login attempt failed.
#[derive(Debug)]
pub enum PinterestLoginError {
    /// The browser could not be driven: launch, transport, or a timeout.
    CdpError(chromiumoxide::error::CdpError),
    /// The browser configuration could not be built.
    BrowserConfigBuildError(String),
    /// The site rejected the credentials, or its page became unreachable
    /// after they were submitted.
    AuthenticationError,
}

/// Relies on the shape of chromiumoxide's error type only: its contents are
/// carried through and never read.
#[verifier::external_type_specification]
#[verifier::external_body]
pub struct ExCdpError(chromiumoxide::error::CdpError);

} // verus!
