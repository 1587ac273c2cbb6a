use chromiumoxide::error::CdpError;
use pinterest_login::login_bot::{
    next_fill_step, submission_progress, DefaultBrowserLoginBot, EmailLookup, FillStep,
    SubmitProgress, WAIT_DELAY,
};
use pinterest_login::PinterestLoginError;

#[test]
fn bot_keeps_its_credentials() {
    let bot = DefaultBrowserLoginBot::new("user@example.com", "correct-pw");
    assert_eq!(bot.email(), "user@example.com");
    assert_eq!(bot.password(), "correct-pw");
}

#[test]
fn fill_retries_until_the_email_field_shows() {
    assert!(matches!(next_fill_step(EmailLookup::Missing), FillStep::Retry { delay_ms: 20 }));
    assert_eq!(WAIT_DELAY, 20);
    assert!(matches!(next_fill_step(EmailLookup::Found), FillStep::TypeCredentials));
}

#[test]
fn a_driver_failure_ends_the_fill() {
    let step = next_fill_step(EmailLookup::Failed(CdpError::Timeout));
    assert!(matches!(step, FillStep::Fail(PinterestLoginError::CdpError(CdpError::Timeout))));
    let step = next_fill_step(EmailLookup::Failed(CdpError::NoResponse));
    assert!(matches!(step, FillStep::Fail(PinterestLoginError::CdpError(CdpError::NoResponse))));
}

#[test]
fn a_shifted_control_ends_the_wait() {
    assert_eq!(submission_progress(true, &[false, true]), SubmitProgress::Rejected);
    assert_eq!(submission_progress(true, &[true]), SubmitProgress::Rejected);
}

#[test]
fn nothing_changed_keeps_waiting() {
    assert_eq!(submission_progress(true, &[false, false]), SubmitProgress::Pending);
    assert_eq!(submission_progress(true, &[]), SubmitProgress::Pending);
}

#[test]
fn a_vanished_email_field_means_navigation() {
    assert_eq!(submission_progress(false, &[false]), SubmitProgress::Progressed);
    assert_eq!(submission_progress(false, &[true]), SubmitProgress::Progressed);
}
