use kv_downloader::completion::{DetectorError, Poll};
use kv_downloader::track::{
    clean_track_name, filename_from_href, track_name_from_json, AttemptAction, AttemptError,
    Dismissal, LinkProbe, TrackAttempt, DIALOG_SETTLE_SECS, DOWNLOAD_START_SECS, SETTLE_MS,
};

fn owned(names: &[&str]) -> Vec<String> {
    names.iter().map(|n| n.to_string()).collect()
}

fn through_the_dialog(attempt: u32) -> TrackAttempt {
    let mut run = TrackAttempt::start(attempt);
    run.isolated(true);
    run.triggered(true);
    run.dialog_awaited(true);
    run
}

#[test]
fn settle_times() {
    assert_eq!(SETTLE_MS, 500);
    assert_eq!(DIALOG_SETTLE_SECS, 1);
    assert_eq!(DOWNLOAD_START_SECS, 4);
}

#[test]
fn filename_is_the_decoded_last_segment() {
    assert_eq!(
        filename_from_href("https://cdn.example.com/dl/42/My%20Song%28Click%29.mp3"),
        Some("My Song(Click).mp3".to_string())
    );
    assert_eq!(filename_from_href("plain.mp3"), Some("plain.mp3".to_string()));
    assert_eq!(filename_from_href("a/b/"), Some(String::new()));
    assert_eq!(filename_from_href(""), Some(String::new()));
    assert_eq!(filename_from_href("/x/caf%C3%A9.mp3"), Some("café.mp3".to_string()));
    assert_eq!(filename_from_href("/x/a+b%2Fc.mp3"), Some("a+b/c.mp3".to_string()));
}

#[test]
fn filename_that_is_no_text_cannot_be_decoded() {
    assert_eq!(filename_from_href("https://cdn.example.com/dl/%FF%FE.mp3"), None);
}

#[test]
fn track_names_lose_quotes_and_line_breaks() {
    assert_eq!(clean_track_name("\"Drum Kit\""), "Drum Kit");
    assert_eq!(clean_track_name("\"Electric Guitar\\n(intro)\""), "Electric Guitar (intro)");
    assert_eq!(clean_track_name("\\n\\n"), "  ");
    assert_eq!(clean_track_name("\\\\n"), "\\ ");
    assert_eq!(clean_track_name("a\\"), "a\\");
    assert_eq!(clean_track_name("\"\""), "");
    assert_eq!(clean_track_name(""), "");
    assert_eq!(clean_track_name("n\\x"), "n\\x");
}

#[test]
fn extracts_track_names() {
    let raw = [
        "\"Click\"",
        "\"Drum Kit\"",
        "\"Bass\"",
        "\"Electric Guitar (intro)\"",
        "\"Rhythm Electric Guitar\"",
        "\"Lead Electric Guitar 1\"",
        "\"Lead Electric Guitar 2\"",
        "\"Backing Vocals\"",
        "\"Lead Vocal\"",
    ];
    let names: Vec<String> = raw.iter().map(|text| track_name_from_json(Some(*text))).collect();
    assert_eq!(
        names,
        vec![
            "Click".to_string(),
            "Drum Kit".to_string(),
            "Bass".to_string(),
            "Electric Guitar (intro)".to_string(),
            "Rhythm Electric Guitar".to_string(),
            "Lead Electric Guitar 1".to_string(),
            "Lead Electric Guitar 2".to_string(),
            "Backing Vocals".to_string(),
            "Lead Vocal".to_string(),
        ]
    );
}

#[test]
fn track_without_text_has_the_empty_name() {
    assert_eq!(track_name_from_json(None), "");
}

#[test]
fn attempt_goes_through_every_step() {
    let mut run = TrackAttempt::start(1);
    assert_eq!(run.action(), AttemptAction::Isolate);
    assert_eq!(run.filename(), None);
    run.isolated(true);
    assert_eq!(run.action(), AttemptAction::Trigger);
    run.triggered(true);
    assert_eq!(run.action(), AttemptAction::AwaitDialog { timeout_secs: 60 });
    run.dialog_awaited(true);
    assert_eq!(run.action(), AttemptAction::ReadLink);
    run.link_read(LinkProbe::Address("https://cdn.example.com/dl/Song%20%28Bass%29.mp3".to_string()));
    assert_eq!(run.action(), AttemptAction::Dismiss);
    assert_eq!(run.filename(), Some("Song (Bass).mp3"));
    run.dismissed(Dismissal::Closed);
    assert_eq!(run.action(), AttemptAction::AwaitTransfer);
    let writing = owned(&["Song (Bass).mp3.crdownload"]);
    assert_eq!(
        run.transfer_observed(0, Some(&writing), false),
        Some(Poll::Pending { wait_ms: 500 })
    );
    assert_eq!(run.action(), AttemptAction::AwaitTransfer);
    let written = owned(&["Song (Bass).mp3"]);
    assert_eq!(run.transfer_observed(500, Some(&written), true), Some(Poll::Landed));
    assert_eq!(run.action(), AttemptAction::Finish(None));
    assert_eq!(run.filename(), Some("Song (Bass).mp3"));
    assert_eq!(run.transfer_observed(1000, Some(&written), true), None);
}

#[test]
fn file_is_waited_for_five_minutes() {
    let mut run = through_the_dialog(1);
    run.filename_decoded(Some("a.mp3".to_string()));
    run.dismissed(Dismissal::Closed);
    let writing = owned(&["a.mp3.crdownload"]);
    assert_eq!(
        run.transfer_observed(300_000, Some(&writing), false),
        Some(Poll::Pending { wait_ms: 500 })
    );
    assert_eq!(
        run.transfer_observed(300_001, Some(&writing), false),
        Some(Poll::Failed(DetectorError::TimedOut { elapsed_ms: 300_001 }))
    );
    assert_eq!(
        run.action(),
        AttemptAction::Finish(Some(AttemptError::Transfer(DetectorError::TimedOut {
            elapsed_ms: 300_001
        })))
    );
}

#[test]
fn unreadable_download_directory_fails_the_attempt() {
    let mut run = through_the_dialog(1);
    run.filename_decoded(Some("a.mp3".to_string()));
    run.dismissed(Dismissal::NoButton);
    assert_eq!(
        run.transfer_observed(0, None, true),
        Some(Poll::Failed(DetectorError::DirectoryUnreadable))
    );
    assert_eq!(
        run.action(),
        AttemptAction::Finish(Some(AttemptError::Transfer(DetectorError::DirectoryUnreadable)))
    );
}

#[test]
fn later_attempts_wait_longer_for_the_dialog() {
    for (attempt, secs) in [(1, 60), (2, 90), (3, 120)] {
        let mut run = TrackAttempt::start(attempt);
        run.isolated(true);
        run.triggered(true);
        assert_eq!(run.action(), AttemptAction::AwaitDialog { timeout_secs: secs });
        run.dialog_awaited(false);
        assert_eq!(
            run.action(),
            AttemptAction::Finish(Some(AttemptError::DialogTimeout { secs }))
        );
    }
}

#[test]
fn failed_steps_fail_the_attempt() {
    let mut run = TrackAttempt::start(1);
    run.isolated(false);
    assert_eq!(run.action(), AttemptAction::Finish(Some(AttemptError::Isolation)));

    let mut run = TrackAttempt::start(1);
    run.isolated(true);
    run.triggered(false);
    assert_eq!(run.action(), AttemptAction::Finish(Some(AttemptError::Trigger)));

    let mut run = through_the_dialog(1);
    run.link_read(LinkProbe::Missing);
    assert_eq!(run.action(), AttemptAction::Finish(Some(AttemptError::NoLink)));

    let mut run = through_the_dialog(1);
    run.link_read(LinkProbe::WithoutAddress);
    assert_eq!(run.action(), AttemptAction::Finish(Some(AttemptError::NoAddress)));

    let mut run = through_the_dialog(1);
    run.link_read(LinkProbe::Address("/dl/%FF.mp3".to_string()));
    assert_eq!(run.action(), AttemptAction::Finish(Some(AttemptError::BadFilename)));
    assert_eq!(run.filename(), None);

    let mut run = through_the_dialog(1);
    run.filename_decoded(None);
    assert_eq!(run.action(), AttemptAction::Finish(Some(AttemptError::BadFilename)));

    let mut run = through_the_dialog(1);
    run.filename_decoded(Some("a.mp3".to_string()));
    run.dismissed(Dismissal::ClickFailed);
    assert_eq!(run.action(), AttemptAction::Finish(Some(AttemptError::Dismissal)));

}

#[test]
fn dialog_without_close_button_is_tolerated() {
    let mut run = through_the_dialog(2);
    run.filename_decoded(Some("a.mp3".to_string()));
    run.dismissed(Dismissal::NoButton);
    assert_eq!(run.action(), AttemptAction::AwaitTransfer);
}

#[test]
fn attempt_ignores_reports_out_of_turn() {
    let mut run = TrackAttempt::start(1);
    run.triggered(true);
    run.dialog_awaited(true);
    run.link_read(LinkProbe::Missing);
    run.filename_decoded(Some("a.mp3".to_string()));
    run.dismissed(Dismissal::Closed);
    assert_eq!(run.transfer_observed(0, Some(&Vec::new()), true), None);
    assert_eq!(run.action(), AttemptAction::Isolate);
    assert_eq!(run.filename(), None);
    run.isolated(false);
    run.isolated(true);
    run.triggered(true);
    assert_eq!(run.action(), AttemptAction::Finish(Some(AttemptError::Isolation)));
}
