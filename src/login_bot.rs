//! The default login bot: the credentials it types, and the decisions it takes
//! while it fills the form, submits it, and judges the outcome.
use vstd::prelude::*;

use vstd::string::StringSliceAdditionalSpecFns;

use crate::PinterestLoginError;

verus! {

/// Does `u` hold `lit` starting at byte `start`?
pub open spec fn holds_at(u: Seq<u8>, start: int, lit: Seq<u8>) -> bool {
    0 <= start && start + lit.len() <= u.len() && u.subrange(start, start + lit.len()) == lit
}

pub open spec fn http_bytes() -> Seq<u8> {
    seq![104u8, 116u8, 116u8, 112u8]
}

pub open spec fn scheme_sep_bytes() -> Seq<u8> {
    seq![58u8, 47u8, 47u8]
}

pub open spec fn www_bytes() -> Seq<u8> {
    seq![119u8, 119u8, 119u8, 46u8]
}

/// `pinterest.com/login`
pub open spec fn login_path_bytes() -> Seq<u8> {
    seq![
        112u8, 105u8, 110u8, 116u8, 101u8, 114u8, 101u8, 115u8, 116u8, 46u8, 99u8, 111u8, 109u8,
        47u8, 108u8, 111u8, 103u8, 105u8, 110u8,
    ]
}

/// A byte that ends the `login` path segment: the segment must not run on into
/// a longer name such as `loginhelp`.
pub open spec fn ends_segment(b: u8) -> bool {
    b == 47u8 || b == 63u8 || b == 35u8
}

/// `u`, from byte `start`, holds `pinterest.com/login` as a whole path segment.
pub open spec fn login_host_path_at(u: Seq<u8>, start: int) -> bool {
    let end = start + login_path_bytes().len();
    holds_at(u, start, login_path_bytes()) && (end == u.len() || ends_segment(u[end]))
}

/// `u`, from byte `start`, holds the host and path of the login page, with or
/// without a leading `www.`.
pub open spec fn login_authority_at(u: Seq<u8>, start: int) -> bool {
    login_host_path_at(u, start) || (holds_at(u, start, www_bytes()) && login_host_path_at(
        u,
        start + 4,
    ))
}

/// The address is the login page itself: `http://` or `https://`, an optional
/// `www.`, then `pinterest.com/login` as a whole path segment, and anything
/// after that (a trailing slash, a query, a fragment).
pub open spec fn is_login_page(u: Seq<u8>) -> bool {
    holds_at(u, 0, http_bytes()) && (
    (holds_at(u, 4, scheme_sep_bytes()) && login_authority_at(u, 7)) || (u.len() > 4 && u[4]
        == 115u8 && holds_at(u, 5, scheme_sep_bytes()) && login_authority_at(u, 8)))
}

fn bytes_at(u: &[u8], start: usize, lit: &[u8]) -> (r: bool)
    ensures
        r == holds_at(u@, start as int, lit@),
{
    if lit.len() > u.len() || start > u.len() - lit.len() {
        return false;
    }
    let mut i: usize = 0;
    while i < lit.len()
        invariant
            start + lit@.len() <= u@.len(),
            u@.len() == u.len(),
            lit@.len() == lit.len(),
            0 <= i <= lit@.len(),
            forall|j: int| 0 <= j < i ==> u@[start + j] == lit@[j],
        decreases lit@.len() - i,
    {
        if u[start + i] != lit[i] {
            assert(u@.subrange(start as int, start + lit@.len())[i as int] != lit@[i as int]);
            return false;
        }
        i = i + 1;
    }
    assert(u@.subrange(start as int, start + lit@.len()) =~= lit@);
    true
}

fn login_authority_from(u: &[u8], start: usize) -> (r: bool)
    requires
        start <= 8,
    ensures
        r == login_authority_at(u@, start as int),
{
    let www: [u8; 4] = [119u8, 119u8, 119u8, 46u8];
    let path: [u8; 19] = [
        112u8, 105u8, 110u8, 116u8, 101u8, 114u8, 101u8, 115u8, 116u8, 46u8, 99u8, 111u8, 109u8,
        47u8, 108u8, 111u8, 103u8, 105u8, 110u8,
    ];
    assert(www@ =~= www_bytes());
    assert(path@ =~= login_path_bytes());
    let at = if bytes_at(u, start, &www) {
        start + 4
    } else {
        start
    };
    bytes_at(u, at, &path) && (at + 19 == u.len() || (at + 19 < u.len() && (u[at + 19] == 47u8
        || u[at + 19] == 63u8 || u[at + 19] == 35u8)))
}

/// Is `url` the login page itself? This is how a rejected login is told from
/// an accepted one: the site answers wrong credentials by showing the login
/// page again.
pub fn is_login_url(url: &str) -> (r: bool)
    ensures
        r == is_login_page(url.spec_bytes()),
{
    let u = url.as_bytes();
    let http: [u8; 4] = [104u8, 116u8, 116u8, 112u8];
    let sep: [u8; 3] = [58u8, 47u8, 47u8];
    assert(http@ =~= http_bytes());
    assert(sep@ =~= scheme_sep_bytes());
    if !bytes_at(u, 0, &http) {
        return false;
    }
    if bytes_at(u, 4, &sep) {
        login_authority_from(u, 7)
    } else if u.len() > 4 && u[4] == 115u8 && bytes_at(u, 5, &sep) {
        login_authority_from(u, 8)
    } else {
        false
    }
}

/// CSS selector of the email field.
pub const EMAIL_INPUT_SELECTOR: &'static str = "input#email";

/// CSS selector of the password field.
pub const PASSWORD_INPUT_SELECTOR: &'static str = "input#password";

/// XPath of the controls that submit the form, found by their label.
pub const LOGIN_BUTTON_SELECTOR: &'static str = "//*[contains(text(), 'Log in')]";

/// Milliseconds between two looks at the page while waiting on it.
pub const WAIT_DELAY: u64 = 20;

/// The default login bot: logs in with an email and a password.
pub struct DefaultBrowserLoginBot<'a> {
    email: &'a str,
    password: &'a str,
}

impl<'a> DefaultBrowserLoginBot<'a> {
    pub closed spec fn spec_email(&self) -> &'a str {
        self.email
    }

    pub closed spec fn spec_password(&self) -> &'a str {
        self.password
    }

    /// A bot that logs in as `email` with `password`.
    pub fn new(email: &'a str, password: &'a str) -> (r: Self)
        ensures
            r.spec_email() == email,
            r.spec_password() == password,
    {
        Self { email, password }
    }

    /// The email that the bot types.
    pub fn email(&self) -> (r: &'a str)
        ensures
            r == self.spec_email(),
    {
        self.email
    }

    /// The password that the bot types.
    pub fn password(&self) -> (r: &'a str)
        ensures
            r == self.spec_password(),
    {
        self.password
    }
}

/// What one look for the email field gave.
#[derive(Debug)]
pub enum EmailLookup {
    /// The field is on the page.
    Found,
    /// The browser answered, but the field is not there (or not drawn yet).
    Missing,
    /// The browser could not be asked: transport failure, timeout and the like.
    Failed(chromiumoxide::error::CdpError),
}

/// What to do after one look for the email field.
#[derive(Debug)]
pub enum FillStep {
    /// The field is not there yet: look again after this many milliseconds.
    Retry { delay_ms: u64 },
    /// The field is there: type the credentials.
    TypeCredentials,
    /// The browser failed: the attempt ends with this error.
    Fail(PinterestLoginError),
}

/// The form renders some time after the page loads, and a missing field looks
/// the same as one not drawn yet, so the field is looked for again and again,
/// a short pause apart, with no deadline of its own. A failure of the browser
/// itself, a request timeout among them, ends the wait with that error.
pub fn next_fill_step(lookup: EmailLookup) -> (r: FillStep)
    ensures
        lookup is Found ==> r is TypeCredentials,
        lookup is Missing ==> r == (FillStep::Retry { delay_ms: WAIT_DELAY }),
        lookup matches EmailLookup::Failed(e) ==> r == FillStep::Fail(
            PinterestLoginError::CdpError(e),
        ),
{
    match lookup {
        EmailLookup::Found => FillStep::TypeCredentials,
        EmailLookup::Missing => FillStep::Retry { delay_ms: WAIT_DELAY },
        EmailLookup::Failed(e) => FillStep::Fail(PinterestLoginError::CdpError(e)),
    }
}

/// Where a submitted form stands.
#[derive(Debug, PartialEq, Eq, Structural)]
pub enum SubmitProgress {
    /// Nothing has changed yet: look again.
    Pending,
    /// The page stayed, but a clicked control moved: the site drew an inline
    /// error beside the form.
    Rejected,
    /// The email field is gone: the page navigated.
    Progressed,
}

/// Did any clicked control move from where it was before the click?
pub open spec fn any_moved(moved: Seq<bool>) -> bool {
    exists|i: int| 0 <= i < moved.len() && moved[i]
}

pub open spec fn spec_submit_progress(email_field_present: bool, moved: Seq<bool>) -> SubmitProgress {
    if !email_field_present {
        SubmitProgress::Progressed
    } else if any_moved(moved) {
        SubmitProgress::Rejected
    } else {
        SubmitProgress::Pending
    }
}

/// Judges a submitted form from one look at the page: whether the email field
/// is still there, and for each clicked control whether its bounding box has
/// left the place it had before the click.
///
/// A rejected login neither navigates nor raises an event; the only trace is
/// an inline tooltip that shifts the clicked control by a few pixels. This is a
/// best-effort heuristic, not a guarantee.
pub fn submission_progress(email_field_present: bool, moved: &[bool]) -> (r: SubmitProgress)
    ensures
        r == spec_submit_progress(email_field_present, moved@),
{
    if !email_field_present {
        return SubmitProgress::Progressed;
    }
    let mut i: usize = 0;
    while i < moved.len()
        invariant
            email_field_present,
            0 <= i <= moved@.len(),
            moved@.len() == moved.len(),
            forall|j: int| 0 <= j < i ==> !moved@[j],
        decreases moved@.len() - i,
    {
        if moved[i] {
            assert(any_moved(moved@));
            return SubmitProgress::Rejected;
        }
        i = i + 1;
    }
    SubmitProgress::Pending
}

/// The outcome of a login, judged from the address that the page shows once
/// it has navigated after the form was submitted: no address, or the login
/// page again, means the credentials were rejected.
pub open spec fn spec_login_outcome(url: Option<Seq<u8>>) -> Result<(), PinterestLoginError> {
    match url {
        Some(u) if !is_login_page(u) => Ok(()),
        _ => Err(PinterestLoginError::AuthenticationError),
    }
}

/// The bytes of an optional address.
pub open spec fn opt_bytes(url: Option<&str>) -> Option<Seq<u8>> {
    match url {
        Some(u) => Some(u.spec_bytes()),
        None => None,
    }
}

/// Judges a submitted login from the page's address once navigation has
/// settled. No address, or the login page again, is a rejected login; any
/// other page is a successful one.
pub fn check_login_url(url: Option<&str>) -> (r: Result<(), PinterestLoginError>)
    ensures
        r == spec_login_outcome(opt_bytes(url)),
{
    match url {
        None => Err(PinterestLoginError::AuthenticationError),
        Some(u) => {
            if is_login_url(u) {
                Err(PinterestLoginError::AuthenticationError)
            } else {
                Ok(())
            }
        },
    }
}

} // verus!
