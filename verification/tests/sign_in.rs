use kv_downloader::sign_in::{
    SignIn, SignInAction, SignInOutcome, SignInPhase, SIGN_IN_SETTLE_SECS,
};

fn owned(names: &[&str]) -> Vec<String> {
    names.iter().map(|n| n.to_string()).collect()
}

#[test]
fn sign_in_settle_time() {
    assert_eq!(SIGN_IN_SETTLE_SECS, 2);
}

#[test]
fn sign_in_without_stored_session_fills_in_the_form() {
    let mut sign_in = SignIn::start();
    assert_eq!(sign_in.action(), SignInAction::OpenHome);
    sign_in.home_opened(None);
    assert_eq!(sign_in.action(), SignInAction::FindLogin);
    sign_in.login_looked_for(true);
    assert_eq!(sign_in.action(), SignInAction::LogIn);
    sign_in.logged_in(&owned(&["consent", "karaoke-version", "karaoke-version"]));
    assert_eq!(sign_in.action(), SignInAction::SaveSession { position: 1 });
    sign_in.session_saved();
    assert_eq!(sign_in.action(), SignInAction::Finish(SignInOutcome::LoggedIn));
}

#[test]
fn session_of_a_signed_in_user_is_restored() {
    let mut sign_in = SignIn::start();
    sign_in.home_opened(Some("token|u-i:4711|more"));
    assert_eq!(sign_in.action(), SignInAction::RestoreSession);
    sign_in.session_restored();
    assert_eq!(sign_in.action(), SignInAction::FindLogin);
    sign_in.login_looked_for(false);
    assert_eq!(sign_in.action(), SignInAction::Finish(SignInOutcome::AlreadySignedIn));
}

#[test]
fn restored_session_that_expired_is_followed_by_a_login() {
    let mut sign_in = SignIn::start();
    sign_in.home_opened(Some("|u-i:1"));
    sign_in.session_restored();
    sign_in.login_looked_for(true);
    assert_eq!(sign_in.action(), SignInAction::LogIn);
}

#[test]
fn anonymous_session_is_not_restored() {
    let mut sign_in = SignIn::start();
    sign_in.home_opened(Some("token-without-user"));
    assert_eq!(sign_in.action(), SignInAction::FindLogin);
}

#[test]
fn login_without_session_cookie_stores_nothing() {
    let mut sign_in = SignIn::start();
    sign_in.home_opened(None);
    sign_in.login_looked_for(true);
    sign_in.logged_in(&owned(&["consent", "lang"]));
    assert_eq!(sign_in.action(), SignInAction::Finish(SignInOutcome::LoggedIn));
    let mut sign_in = SignIn::start();
    sign_in.home_opened(None);
    sign_in.login_looked_for(true);
    sign_in.logged_in(&Vec::new());
    assert_eq!(sign_in.action(), SignInAction::Finish(SignInOutcome::LoggedIn));
}

#[test]
fn sign_in_ignores_reports_out_of_turn() {
    let mut sign_in = SignIn::start();
    sign_in.session_restored();
    sign_in.login_looked_for(false);
    sign_in.logged_in(&owned(&["karaoke-version"]));
    sign_in.session_saved();
    assert_eq!(sign_in.phase, SignInPhase::OpeningHome);
    sign_in.home_opened(None);
    sign_in.home_opened(Some("|u-i:1"));
    sign_in.session_restored();
    sign_in.session_saved();
    assert_eq!(sign_in.phase, SignInPhase::FindingLogin);
    sign_in.login_looked_for(false);
    sign_in.login_looked_for(true);
    sign_in.home_opened(None);
    assert_eq!(sign_in.phase, SignInPhase::Done(SignInOutcome::AlreadySignedIn));
}
