use pinterest_login::cookies::CookieMap;
use pinterest_login::flow::{Action, Event, LoginFlow};
use pinterest_login::login_bot::{check_login_url, DefaultBrowserLoginBot};
use pinterest_login::PinterestLoginError;

/// A scripted driver: a login page that moves to `/home` when the password
/// matches, and shows `/login` again when it does not.
struct StubDriver {
    expected_password: String,
    cookies: Vec<(String, String)>,
    drain_tasks: i32,
    typed: Option<(String, String)>,
    fail_on: Option<&'static str>,
    cancels: u32,
}

impl StubDriver {
    fn new(expected_password: &str) -> Self {
        StubDriver {
            expected_password: expected_password.to_string(),
            cookies: vec![("_pinterest_sess".to_string(), "session-token".to_string())],
            drain_tasks: 0,
            typed: None,
            fail_on: None,
            cancels: 0,
        }
    }

    fn fails(&self, step: &str) -> bool {
        self.fail_on == Some(step)
    }

    fn run(&mut self, bot: &DefaultBrowserLoginBot) -> Result<CookieMap, PinterestLoginError> {
        let (mut flow, mut action) = LoginFlow::new();
        for _ in 0..100 {
            let event = match action {
                Action::BuildConfig => {
                    if self.fails("config") {
                        Event::Failed(PinterestLoginError::BrowserConfigBuildError("no browser".to_string()))
                    } else {
                        Event::Done
                    }
                }
                Action::Launch => {
                    if self.fails("launch") {
                        Event::Failed(PinterestLoginError::CdpError(chromiumoxide::error::CdpError::Timeout))
                    } else {
                        self.drain_tasks += 1;
                        Event::Done
                    }
                }
                Action::PreparePage => {
                    if self.fails("page") {
                        Event::Failed(PinterestLoginError::CdpError(chromiumoxide::error::CdpError::NotFound))
                    } else {
                        Event::Done
                    }
                }
                Action::FillForm => {
                    self.typed = Some((bot.email().to_string(), bot.password().to_string()));
                    Event::Done
                }
                Action::SubmitForm => Event::Done,
                Action::CheckLogin => {
                    let (_, password) = self.typed.clone().unwrap();
                    let url = if password == self.expected_password {
                        "https://pinterest.com/home"
                    } else {
                        "https://pinterest.com/login"
                    };
                    Event::from_result(check_login_url(Some(url)))
                }
                Action::ReadCookies => Event::CookiesRead(self.cookies.clone()),
                Action::CancelDrain => {
                    self.drain_tasks -= 1;
                    self.cancels += 1;
                    Event::Done
                }
                Action::Finish(r) => return r,
                Action::Halt => panic!("halted before a result"),
            };
            let (f, a) = flow.step(event);
            flow = f;
            action = a;
        }
        panic!("the flow did not finish");
    }
}

#[test]
fn correct_credentials_return_the_session_cookie() {
    let bot = DefaultBrowserLoginBot::new("user@example.com", "correct-pw");
    let mut stub = StubDriver::new("correct-pw");
    let cookies = stub.run(&bot).ok().unwrap();
    assert!(!cookies.is_empty());
    assert_eq!(
        cookies.get(&"_pinterest_sess".to_string()).map(|s| s.as_str()),
        Some("session-token")
    );
    assert_eq!(stub.drain_tasks, 0);
    assert_eq!(stub.cancels, 1);
}

#[test]
fn wrong_password_is_an_authentication_error() {
    let bot = DefaultBrowserLoginBot::new("user@example.com", "wrong-pw");
    let mut stub = StubDriver::new("correct-pw");
    let r = stub.run(&bot);
    assert!(matches!(r, Err(PinterestLoginError::AuthenticationError)));
    assert_eq!(stub.drain_tasks, 0);
    assert_eq!(stub.cancels, 1);
}

#[test]
fn several_accepted_pairs_all_return_cookies() {
    for (email, pw) in [("a@b.c", "pw1"), ("user", "x"), ("z@z.z", "long password 123")] {
        let bot = DefaultBrowserLoginBot::new(email, pw);
        let mut stub = StubDriver::new(pw);
        let cookies = stub.run(&bot).ok().unwrap();
        assert_eq!(cookies.len(), 1);
        assert_eq!(stub.typed, Some((email.to_string(), pw.to_string())));
        assert_eq!(stub.drain_tasks, 0);
    }
}

#[test]
fn config_failure_needs_no_teardown() {
    let bot = DefaultBrowserLoginBot::new("user@example.com", "correct-pw");
    let mut stub = StubDriver::new("correct-pw");
    stub.fail_on = Some("config");
    let r = stub.run(&bot);
    assert!(matches!(r, Err(PinterestLoginError::BrowserConfigBuildError(_))));
    assert_eq!(stub.cancels, 0);
    assert_eq!(stub.drain_tasks, 0);
}

#[test]
fn launch_failure_is_a_driver_error() {
    let bot = DefaultBrowserLoginBot::new("user@example.com", "correct-pw");
    let mut stub = StubDriver::new("correct-pw");
    stub.fail_on = Some("launch");
    let r = stub.run(&bot);
    assert!(matches!(r, Err(PinterestLoginError::CdpError(_))));
    assert_eq!(stub.cancels, 0);
}

#[test]
fn driver_failure_after_launch_still_cancels_the_drain() {
    let bot = DefaultBrowserLoginBot::new("user@example.com", "correct-pw");
    let mut stub = StubDriver::new("correct-pw");
    stub.fail_on = Some("page");
    let r = stub.run(&bot);
    assert!(matches!(r, Err(PinterestLoginError::CdpError(_))));
    assert_eq!(stub.cancels, 1);
    assert_eq!(stub.drain_tasks, 0);
}

#[test]
fn finished_flow_stays_finished() {
    let (flow, _) = LoginFlow::new();
    let (flow, a) = flow.step(Event::Failed(PinterestLoginError::AuthenticationError));
    assert!(matches!(a, Action::Finish(Err(PinterestLoginError::AuthenticationError))));
    assert!(!flow.drain_running());
    let (flow, a) = flow.step(Event::Done);
    assert!(matches!(a, Action::Halt));
    assert!(matches!(flow, LoginFlow::Finished));
}

#[test]
fn an_event_that_does_not_fit_is_ignored() {
    let (flow, _) = LoginFlow::new();
    let (flow, a) = flow.step(Event::CookiesRead(Vec::new()));
    assert!(matches!(a, Action::BuildConfig));
    assert!(matches!(flow, LoginFlow::Configuring));
}

#[test]
fn session_cookie_survives_among_others() {
    let bot = DefaultBrowserLoginBot::new("user@example.com", "correct-pw");
    let mut stub = StubDriver::new("correct-pw");
    stub.cookies = vec![
        ("csrftoken".to_string(), "t0".to_string()),
        ("_pinterest_sess".to_string(), "session-token".to_string()),
        ("csrftoken".to_string(), "t1".to_string()),
    ];
    let cookies = stub.run(&bot).ok().unwrap();
    assert_eq!(cookies.len(), 2);
    assert_eq!(
        cookies.get(&"_pinterest_sess".to_string()).map(|s| s.as_str()),
        Some("session-token")
    );
    assert_eq!(cookies.get(&"csrftoken".to_string()).map(|s| s.as_str()), Some("t1"));
}
