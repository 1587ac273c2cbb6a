//! One login attempt as a state machine.
//!
//! The driver work (launching the browser, driving the page, reading cookies)
//! and the background task that drains the driver's event stream are run by the
//! caller. The machine says what to do next from what came of the last step,
//! and makes sure that, once the drain task runs, no attempt ends without
//! cancelling it.
use vstd::prelude::*;

use crate::cookies::{harvest, lemma_pairs_map_last_occurrence, pairs_map, CookieMap};
use crate::login_bot::spec_login_outcome;
use crate::PinterestLoginError;

verus! {

/// Where one login attempt stands.
pub enum LoginFlow {
    /// The browser configuration is being built.
    Configuring,
    /// The browser is being launched.
    Launching,
    /// The browser runs, with its drain task; the login page is being opened.
    PreparingPage,
    /// The login form is being filled.
    FillingForm,
    /// The login form is being submitted.
    SubmittingForm,
    /// The outcome of the submission is being judged.
    CheckingLogin,
    /// The login succeeded; the page's cookies are being read.
    ReadingCookies,
    /// The drain task is being cancelled; the attempt's result is held.
    TearingDown(Result<CookieMap, PinterestLoginError>),
    /// The result has been handed out.
    Finished,
}

/// What came of the last action.
pub enum Event {
    /// It completed.
    Done,
    /// It failed.
    Failed(PinterestLoginError),
    /// The page's cookies, as `(name, value)` pairs.
    CookiesRead(Vec<(String, String)>),
}

/// What the caller is to do next.
pub enum Action {
    /// Build the browser configuration.
    BuildConfig,
    /// Launch the browser with it, and start the task that drains its events.
    Launch,
    /// Open a private context and a page in it, quiet the page, and navigate
    /// to the login page.
    PreparePage,
    /// Fill the login form.
    FillForm,
    /// Submit the login form.
    SubmitForm,
    /// Judge whether the login succeeded.
    CheckLogin,
    /// Read the page's cookies.
    ReadCookies,
    /// Cancel the drain task.
    CancelDrain,
    /// The attempt is over: hand this result to the caller.
    Finish(Result<CookieMap, PinterestLoginError>),
    /// The attempt was already over: nothing to do.
    Halt,
}

/// The drain task runs in this stage: it was started with the browser and
/// not yet confirmed cancelled.
pub open spec fn drain_running(s: LoginFlow) -> bool {
    s is PreparingPage || s is FillingForm || s is SubmittingForm || s is CheckingLogin
        || s is ReadingCookies || s is TearingDown
}

/// The stage that follows when the current stage's action completes.
pub open spec fn successor(s: LoginFlow) -> LoginFlow {
    match s {
        LoginFlow::Configuring => LoginFlow::Launching,
        LoginFlow::Launching => LoginFlow::PreparingPage,
        LoginFlow::PreparingPage => LoginFlow::FillingForm,
        LoginFlow::FillingForm => LoginFlow::SubmittingForm,
        LoginFlow::SubmittingForm => LoginFlow::CheckingLogin,
        LoginFlow::CheckingLogin => LoginFlow::ReadingCookies,
        _ => s,
    }
}

/// The action that a stage asks for while it waits.
pub open spec fn request(s: LoginFlow) -> Action {
    match s {
        LoginFlow::Configuring => Action::BuildConfig,
        LoginFlow::Launching => Action::Launch,
        LoginFlow::PreparingPage => Action::PreparePage,
        LoginFlow::FillingForm => Action::FillForm,
        LoginFlow::SubmittingForm => Action::SubmitForm,
        LoginFlow::CheckingLogin => Action::CheckLogin,
        LoginFlow::ReadingCookies => Action::ReadCookies,
        LoginFlow::TearingDown(_) => Action::CancelDrain,
        LoginFlow::Finished => Action::Halt,
    }
}

/// One step of the machine: from stage `s`, on event `e`, the machine moves
/// to `r.0` and asks for `r.1`.
///
/// - Once over, it stays over.
/// - Tearing down, whatever comes back, it hands out the held result: a
///   cancellation never turns into an error.
/// - A failure ends the attempt with that error, through a teardown if the
///   drain task runs.
/// - Cookies read after a confirmed login are folded into the map, which is
///   held through the teardown.
/// - A completed action moves the stage on.
/// - An event that does not fit the stage is ignored: the stage asks again.
pub open spec fn step_spec(s: LoginFlow, e: Event, r: (LoginFlow, Action)) -> bool {
    match s {
        LoginFlow::Finished => r == (LoginFlow::Finished, Action::Halt),
        LoginFlow::TearingDown(o) => r == (LoginFlow::Finished, Action::Finish(o)),
        _ => match e {
            Event::Failed(err) => if drain_running(s) {
                r == (LoginFlow::TearingDown(Err(err)), Action::CancelDrain)
            } else {
                r == (LoginFlow::Finished, Action::Finish(Err::<CookieMap, PinterestLoginError>(err)))
            },
            Event::CookiesRead(c) => if s is ReadingCookies {
                r.1 is CancelDrain && (r.0 matches LoginFlow::TearingDown(Ok(m)) && m.wf() && m@
                    == pairs_map(c@))
            } else {
                r == (s, request(s))
            },
            Event::Done => if s is ReadingCookies {
                r == (s, request(s))
            } else {
                r == (successor(s), request(successor(s)))
            },
        },
    }
}

impl LoginFlow {
    /// A fresh attempt, and its first action: build the configuration.
    pub fn new() -> (r: (LoginFlow, Action))
        ensures
            r == (LoginFlow::Configuring, Action::BuildConfig),
    {
        (LoginFlow::Configuring, Action::BuildConfig)
    }

    /// The action that this stage asks for while it waits.
    fn request(&self) -> (r: Action)
        requires
            !(self is TearingDown),
        ensures
            r == request(*self),
    {
        match self {
            LoginFlow::Configuring => Action::BuildConfig,
            LoginFlow::Launching => Action::Launch,
            LoginFlow::PreparingPage => Action::PreparePage,
            LoginFlow::FillingForm => Action::FillForm,
            LoginFlow::SubmittingForm => Action::SubmitForm,
            LoginFlow::CheckingLogin => Action::CheckLogin,
            LoginFlow::ReadingCookies => Action::ReadCookies,
            LoginFlow::TearingDown(_) => Action::CancelDrain,
            LoginFlow::Finished => Action::Halt,
        }
    }

    /// Is the drain task running in this stage?
    pub fn drain_running(&self) -> (r: bool)
        ensures
            r == drain_running(*self),
    {
        match self {
            LoginFlow::Configuring | LoginFlow::Launching | LoginFlow::Finished => false,
            _ => true,
        }
    }

    /// Takes the outcome of the last action and says what to do next.
    pub fn step(self, e: Event) -> (r: (LoginFlow, Action))
        ensures
            step_spec(self, e, r),
    {
        match self {
            LoginFlow::Finished => (LoginFlow::Finished, Action::Halt),
            LoginFlow::TearingDown(o) => (LoginFlow::Finished, Action::Finish(o)),
            _ => match e {
                Event::Failed(err) => {
                    if self.drain_running() {
                        (LoginFlow::TearingDown(Err(err)), Action::CancelDrain)
                    } else {
                        (LoginFlow::Finished, Action::Finish(Err(err)))
                    }
                },
                Event::CookiesRead(c) => {
                    if let LoginFlow::ReadingCookies = self {
                        let m = harvest(&c);
                        (LoginFlow::TearingDown(Ok(m)), Action::CancelDrain)
                    } else {
                        let a = self.request();
                        (self, a)
                    }
                },
                Event::Done => {
                    let next = match self {
                        LoginFlow::Configuring => LoginFlow::Launching,
                        LoginFlow::Launching => LoginFlow::PreparingPage,
                        LoginFlow::PreparingPage => LoginFlow::FillingForm,
                        LoginFlow::FillingForm => LoginFlow::SubmittingForm,
                        LoginFlow::SubmittingForm => LoginFlow::CheckingLogin,
                        LoginFlow::CheckingLogin => LoginFlow::ReadingCookies,
                        other => other,
                    };
                    let a = next.request();
                    (next, a)
                },
            },
        }
    }
}

impl Event {
    /// The event that a driver step's result makes.
    pub fn from_result(r: Result<(), PinterestLoginError>) -> (e: Event)
        ensures
            e == event_of(r),
    {
        match r {
            Ok(()) => Event::Done,
            Err(err) => Event::Failed(err),
        }
    }
}

/// The event that a driver step's result makes.
pub open spec fn event_of(r: Result<(), PinterestLoginError>) -> Event {
    match r {
        Ok(()) => Event::Done,
        Err(err) => Event::Failed(err),
    }
}

/// The drain task never outlives an attempt: once it runs, the only way out is
/// through the teardown, which is entered by asking for its cancellation, and
/// the result is handed out only after that, from a stage where it no longer
/// runs.
pub proof fn lemma_drain_cancelled_before_finish(s: LoginFlow, e: Event, r: (LoginFlow, Action))
    requires
        step_spec(s, e, r),
    ensures
        drain_running(s) && !drain_running(r.0) ==> s is TearingDown,
        r.0 is TearingDown && !(s is TearingDown) ==> r.1 is CancelDrain,
        r.1 is Finish ==> r.0 is Finished && !drain_running(r.0),
        r.1 is Finish && drain_running(s) ==> s is TearingDown,
{
}

/// A login that the site accepts (it navigates away from the login page) ends
/// with the page's cookies folded into a map, never with an error; the map is
/// empty only if the page had no cookie.
pub proof fn lemma_accepted_login_yields_cookies(
    url: Option<Seq<u8>>,
    cookies: Vec<(String, String)>,
    r1: (LoginFlow, Action),
    r2: (LoginFlow, Action),
    r3: (LoginFlow, Action),
)
    requires
        spec_login_outcome(url) is Ok,
        step_spec(LoginFlow::CheckingLogin, event_of(spec_login_outcome(url)), r1),
        step_spec(r1.0, Event::CookiesRead(cookies), r2),
        step_spec(r2.0, Event::Done, r3),
    ensures
        r1.1 is ReadCookies,
        r2.1 is CancelDrain,
        r3.0 is Finished,
        r3.1 matches Action::Finish(Ok(m)) && m@ == pairs_map(cookies@) && (cookies@.len() > 0
            ==> m@.dom() != Set::<Seq<char>>::empty()),
{
    if cookies@.len() > 0 {
        let k = cookies@.last().0@;
        assert(pairs_map(cookies@).contains_key(k));
        assert(!Set::<Seq<char>>::empty().contains(k));
    }
}

/// A login that the site rejects (it shows the login page again, or no page
/// at all) ends, after the teardown, with an authentication error and no
/// cookies.
pub proof fn lemma_rejected_login_fails(
    url: Option<Seq<u8>>,
    e: Event,
    r1: (LoginFlow, Action),
    r2: (LoginFlow, Action),
)
    requires
        spec_login_outcome(url) is Err,
        step_spec(LoginFlow::CheckingLogin, event_of(spec_login_outcome(url)), r1),
        step_spec(r1.0, e, r2),
    ensures
        r1.1 is CancelDrain,
        r2 == (LoginFlow::Finished, Action::Finish(
            Err::<CookieMap, PinterestLoginError>(PinterestLoginError::AuthenticationError),
        )),
{
}

/// `steps` is what the machine went through from `start` on `events`: each
/// entry is the stage and action that one event led to.
pub open spec fn is_run(start: LoginFlow, events: Seq<Event>, steps: Seq<(LoginFlow, Action)>) -> bool {
    &&& steps.len() == events.len()
    &&& events.len() > 0 ==> step_spec(start, events[0], steps[0])
    &&& forall|k: int| 0 < k < events.len() ==> step_spec(steps[k - 1].0, events[k], #[trigger] steps[k])
}

/// The events of an attempt in which every driver step succeeds: the
/// configuration, the launch, the page, filling and submitting the form, then
/// the judged outcome, the cookies read, and the cancelled drain task.
pub open spec fn smooth_login_events(url: Option<Seq<u8>>, cookies: Vec<(String, String)>) -> Seq<Event> {
    seq![
        Event::Done,
        Event::Done,
        Event::Done,
        Event::Done,
        Event::Done,
        event_of(spec_login_outcome(url)),
        Event::CookiesRead(cookies),
        Event::Done,
    ]
}

/// A whole attempt, from a fresh start, in which every driver step succeeds and
/// the site navigates away from the login page, hands out the page's cookies:
/// a cookie whose name the page does not set again later (a session cookie)
/// is in the map with its value, and nothing ends the attempt earlier.
pub proof fn lemma_login_returns_session_cookie(
    url: Option<Seq<u8>>,
    cookies: Vec<(String, String)>,
    i: int,
    steps: Seq<(LoginFlow, Action)>,
)
    requires
        spec_login_outcome(url) is Ok,
        is_run(LoginFlow::Configuring, smooth_login_events(url, cookies), steps),
        0 <= i < cookies@.len(),
        forall|j: int| i < j < cookies@.len() ==> cookies@[j].0@ != cookies@[i].0@,
    ensures
        steps.len() == 8,
        forall|k: int| 0 <= k < 7 ==> !(#[trigger] steps[k].1 is Finish),
        steps[7].1 matches Action::Finish(Ok(m)) && m@.contains_key(cookies@[i].0@) && m@[cookies@[i].0@]
            == cookies@[i].1@,
{
    let ev = smooth_login_events(url, cookies);
    assert(step_spec(steps[0].0, ev[1], steps[1]));
    assert(step_spec(steps[1].0, ev[2], steps[2]));
    assert(step_spec(steps[2].0, ev[3], steps[3]));
    assert(step_spec(steps[3].0, ev[4], steps[4]));
    assert(step_spec(steps[4].0, ev[5], steps[5]));
    assert(step_spec(steps[5].0, ev[6], steps[6]));
    assert(step_spec(steps[6].0, ev[7], steps[7]));
    assert(steps[4].0 is CheckingLogin);
    lemma_pairs_map_last_occurrence(cookies@, i);
}

} // verus!
