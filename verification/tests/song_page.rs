use kv_downloader::download_song::{
    is_checked, is_verify_you_are_human_title, DownloadError, DownloadOptions, PageProbe,
    BOT_CHECK_TITLE, CHECKED_ATTRIBUTE, COUNT_IN_TIMEOUT_SECS, MIXER_SETTLE_SECS,
};
use kv_downloader::driver::{
    Config, DEFAULT_DOMAIN, ELEMENT_TIMEOUT_SECS, WINDOW_HEIGHT, WINDOW_WIDTH,
};
use kv_downloader::download::DownloadArgs;
use kv_downloader::error::FatalError;
use kv_downloader::keystore::{
    cookie_is_signed_in, find_session_cookie, Credentials, KEYSTORE_SERVICE, KV_CREDENTIALS_KEY,
    PASSWORD_VARIABLE, SESSION_COOKIE_NAME, SIGNED_IN_MARK, USERNAME_VARIABLE,
};
use kv_downloader::text::{contains_name, contains_text, last_segment_of, same_text};

fn owned(names: &[&str]) -> Vec<String> {
    names.iter().map(|n| n.to_string()).collect()
}

fn args(url: &str) -> DownloadArgs {
    DownloadArgs {
        song_url: url.to_string(),
        headless: true,
        download_path: Some("/data/songs".to_string()),
        transpose: None,
        count_in: false,
        force_restart: false,
    }
}

#[test]
fn error_messages() {
    assert_eq!(DownloadError::NotPurchased.message(), "This track has not been purchased");
    assert_eq!(
        DownloadError::NotASongPage.message(),
        "This doesn't look like a song page. Check the url."
    );
    assert_eq!(
        DownloadError::HumanVerificationRequired.message(),
        "The headless browser was detected as a bot and is being presented with a 'Verify you are human' step. Try running without --headless."
    );
}

#[test]
fn bot_check_is_known_by_its_title() {
    assert_eq!(BOT_CHECK_TITLE, "Suspicious activity has been detected");
    assert!(is_verify_you_are_human_title("Suspicious activity has been detected"));
    assert!(is_verify_you_are_human_title("Oops: Suspicious activity has been detected!"));
    assert!(!is_verify_you_are_human_title("Suspicious activity has been detecte"));
    assert!(!is_verify_you_are_human_title("suspicious activity has been detected"));
    assert!(!is_verify_you_are_human_title(""));
}

#[test]
fn page_verdicts() {
    let song = PageProbe {
        has_mixer: true,
        has_download_button: true,
        bot_check_title: false,
        offers_purchase: false,
    };
    assert_eq!(song.check(), Ok(()));
    assert_eq!(PageProbe { bot_check_title: true, ..song }.check(), Ok(()));
    assert_eq!(
        PageProbe { offers_purchase: true, ..song }.check(),
        Err(DownloadError::NotPurchased)
    );
    assert_eq!(PageProbe { has_mixer: false, ..song }.check(), Err(DownloadError::NotASongPage));
    assert_eq!(
        PageProbe { has_download_button: false, offers_purchase: true, ..song }.check(),
        Err(DownloadError::NotASongPage)
    );
    assert_eq!(
        PageProbe { has_mixer: false, bot_check_title: true, ..song }.check(),
        Err(DownloadError::HumanVerificationRequired)
    );
}

#[test]
fn checked_boxes_carry_the_attribute() {
    assert_eq!(CHECKED_ATTRIBUTE, "checked");
    assert!(is_checked(&Some(owned(&["id", "precount", "checked", ""]))));
    assert!(!is_checked(&Some(owned(&["id", "precount", "Checked"]))));
    assert!(!is_checked(&Some(Vec::new())));
    assert!(!is_checked(&None));
}

#[test]
fn count_in_is_clicked_when_wanted_and_not_set() {
    let wanted = DownloadOptions { count_in: true, transpose: 0 };
    let unwanted = DownloadOptions { count_in: false, transpose: 0 };
    let checked = Some(owned(&["checked", ""]));
    let unchecked = Some(owned(&["id", "precount"]));
    assert!(wanted.must_click_count_in(&unchecked));
    assert!(wanted.must_click_count_in(&None));
    assert!(!wanted.must_click_count_in(&checked));
    assert!(!unwanted.must_click_count_in(&unchecked));
    assert!(!unwanted.must_click_count_in(&checked));
}

#[test]
fn song_page_waits() {
    assert_eq!(COUNT_IN_TIMEOUT_SECS, 15);
    assert_eq!(MIXER_SETTLE_SECS, 2);
    assert_eq!(kv_downloader::download::CLOSING_WAIT_SECS, 10);
}

#[test]
fn default_options_change_nothing() {
    assert_eq!(DownloadOptions::default(), DownloadOptions { count_in: false, transpose: 0 });
}

#[test]
fn default_config_is_the_site_with_a_window() {
    let config = Config::default();
    assert_eq!(config.domain, "www.karaoke-version.com");
    assert_eq!(DEFAULT_DOMAIN, "www.karaoke-version.com");
    assert!(!config.headless);
    assert_eq!(config.download_path, None);
    assert_eq!((WINDOW_WIDTH, WINDOW_HEIGHT), (1440, 1200));
    assert_eq!(ELEMENT_TIMEOUT_SECS, 30);
}

#[test]
fn config_takes_the_host_of_the_song() {
    let config =
        Config::for_args(&args("https://www.karaoke-version.co.uk/custombackingtrack/x/y.html"))
            .unwrap();
    assert_eq!(config.domain, "www.karaoke-version.co.uk");
    assert!(config.headless);
    assert_eq!(config.download_path, Some("/data/songs".to_string()));
    assert_eq!(config.home_url(), "https://www.karaoke-version.co.uk");
}

#[test]
fn address_without_host_gives_no_config() {
    assert!(Config::for_args(&args("not an address")).is_none());
    assert!(Config::for_args(&args("mailto:someone@example.com")).is_none());
    assert!(Config::for_args(&args("")).is_none());
}

#[test]
fn config_for_a_given_domain() {
    let config = Config::with_domain(Some("example.com".to_string()), &args("ignored")).unwrap();
    assert_eq!(config.domain, "example.com");
    assert!(config.headless);
    assert_eq!(config.download_path, Some("/data/songs".to_string()));
    assert!(Config::with_domain(None, &args("ignored")).is_none());
}

#[test]
fn keystore_names() {
    assert_eq!(KEYSTORE_SERVICE, "kv-downloader");
    assert_eq!(KV_CREDENTIALS_KEY, "KV_CREDENTIALS");
    assert_eq!(USERNAME_VARIABLE, "KV_USERNAME");
    assert_eq!(PASSWORD_VARIABLE, "KV_PASSWORD");
    assert_eq!(SESSION_COOKIE_NAME, "karaoke-version");
    assert_eq!(SIGNED_IN_MARK, "|u-i:");
}

#[test]
fn environment_needs_both_user_and_password() {
    let both = Credentials::from_env(Some("alice".to_string()), Some("secret".to_string())).unwrap();
    assert_eq!(both.user, "alice");
    assert_eq!(both.password, "secret");
    assert!(Credentials::from_env(Some("alice".to_string()), None).is_none());
    assert!(Credentials::from_env(None, Some("secret".to_string())).is_none());
    assert!(Credentials::from_env(None, None).is_none());
}

#[test]
fn run_needs_stored_credentials() {
    let env = || Some(Credentials::new("alice", "from-env"));
    let stored = || Some(Credentials::new("bob", "stored"));
    assert!(Credentials::resolve(env(), stored()).unwrap().same_as(&Credentials::new("alice", "from-env")));
    assert!(Credentials::resolve(None, stored()).unwrap().same_as(&Credentials::new("bob", "stored")));
    match Credentials::resolve(env(), None) {
        Err(error) => assert_eq!(error, FatalError::MissingCredentials),
        Ok(_) => panic!("credentials were taken though none are stored"),
    }
    match Credentials::resolve(None, None) {
        Err(error) => assert_eq!(error, FatalError::MissingCredentials),
        Ok(_) => panic!("credentials were taken though none are stored"),
    }
}

#[test]
fn credentials_compare_by_both_fields() {
    let alice = Credentials::new("alice", "secret");
    assert!(alice.same_as(&Credentials::new("alice", "secret")));
    assert!(!alice.same_as(&Credentials::new("alice", "other")));
    assert!(!alice.same_as(&Credentials::new("bob", "secret")));
}

#[test]
fn session_of_a_signed_in_user_carries_the_mark() {
    assert!(cookie_is_signed_in("abc|u-i:12345|x"));
    assert!(cookie_is_signed_in("|u-i:"));
    assert!(!cookie_is_signed_in("abc|u-i12345"));
    assert!(!cookie_is_signed_in(""));
}

#[test]
fn session_cookie_is_the_first_of_its_name() {
    assert_eq!(find_session_cookie(&owned(&["a", "karaoke-version", "b", "karaoke-version"])), Some(1));
    assert_eq!(find_session_cookie(&owned(&["karaoke-version"])), Some(0));
    assert_eq!(find_session_cookie(&owned(&["a", "Karaoke-Version"])), None);
    assert_eq!(find_session_cookie(&Vec::new()), None);
}

#[test]
fn text_helpers() {
    assert!(same_text("abc", "abc"));
    assert!(!same_text("abc", "abd"));
    assert!(!same_text("abc", "ab"));
    assert!(contains_name(&owned(&["a", "b"]), "b"));
    assert!(!contains_name(&owned(&["a", "b"]), "c"));
    assert!(contains_text("hello world", "o w"));
    assert!(contains_text("hello", ""));
    assert!(contains_text("", ""));
    assert!(!contains_text("", "a"));
    assert!(!contains_text("aab", "aba"));
    assert!(contains_text("aaab", "aab"));
    assert_eq!(last_segment_of("a/b/c"), "c");
    assert_eq!(last_segment_of("abc"), "abc");
    assert_eq!(last_segment_of("a/"), "");
    assert_eq!(last_segment_of("/"), "");
    assert_eq!(last_segment_of("ü/é"), "é");
}
