use kv_downloader::completion::{
    choose_download_dir, locate_download_dir, Detector, DetectorError, DownloadDir, Poll,
    DEFAULT_DOWNLOAD_FOLDER, DOWNLOAD_COMPLETION_TIMEOUT_MS, DOWNLOAD_COMPLETION_TIMEOUT_SECS,
    IN_PROGRESS_SUFFIX, POLL_INTERVAL_MS,
};
use kv_downloader::error::FatalError;

fn owned(names: &[&str]) -> Vec<String> {
    names.iter().map(|n| n.to_string()).collect()
}

/// Waits with a clock that advances by the interval that each poll asks
/// for, in a directory that shows `listings` one after the other (the last
/// one for ever); the awaited file exists where the listing holds it.
fn await_completion(detector: &Detector, listings: &[Vec<String>]) -> (usize, Poll) {
    let mut elapsed_ms = 0;
    let mut tick = 0;
    loop {
        let entries = &listings[tick.min(listings.len() - 1)];
        let exists = entries.iter().any(|e| e == detector.expected_filename());
        match detector.poll(elapsed_ms, Some(entries), exists) {
            Poll::Pending { wait_ms } => {
                elapsed_ms += wait_ms;
                tick += 1;
            }
            decided => return (tick, decided),
        }
    }
}

#[test]
fn detector_constants() {
    assert_eq!(DOWNLOAD_COMPLETION_TIMEOUT_SECS, 300);
    assert_eq!(DOWNLOAD_COMPLETION_TIMEOUT_MS, 300_000);
    assert_eq!(POLL_INTERVAL_MS, 500);
    assert_eq!(IN_PROGRESS_SUFFIX, ".crdownload");
    assert_eq!(DEFAULT_DOWNLOAD_FOLDER, "Downloads");
}

#[test]
fn marker_is_the_filename_with_the_suffix() {
    let detector = Detector::new("song.mp3", 1000);
    assert_eq!(detector.expected_filename(), "song.mp3");
    assert_eq!(detector.marker_name(), "song.mp3.crdownload");
}

#[test]
fn times_out_when_the_marker_never_disappears() {
    let detector = Detector::new("song.mp3", 1000);
    let (tick, decided) = await_completion(&detector, &[owned(&["song.mp3.crdownload"])]);
    assert_eq!(tick, 3);
    assert_eq!(decided, Poll::Failed(DetectorError::TimedOut { elapsed_ms: 1500 }));
}

#[test]
fn does_not_time_out_at_once() {
    let detector = Detector::new("song.mp3", 1000);
    let listing = owned(&["song.mp3.crdownload"]);
    assert_eq!(detector.poll(0, Some(&listing), false), Poll::Pending { wait_ms: 500 });
    assert_eq!(detector.poll(1000, Some(&listing), false), Poll::Pending { wait_ms: 500 });
    assert_eq!(
        detector.poll(1001, Some(&listing), false),
        Poll::Failed(DetectorError::TimedOut { elapsed_ms: 1001 })
    );
}

#[test]
fn succeeds_when_the_marker_is_replaced_by_the_file() {
    let detector = Detector::new("song.mp3", 300_000);
    let listings = [
        owned(&["song.mp3.crdownload"]),
        owned(&["song.mp3.crdownload", "other.txt"]),
        owned(&["song.mp3", "other.txt"]),
    ];
    let (tick, decided) = await_completion(&detector, &listings);
    assert_eq!(tick, 2);
    assert_eq!(decided, Poll::Landed);
}

#[test]
fn keeps_waiting_while_neither_marker_nor_file_is_there() {
    let detector = Detector::new("song.mp3", 300_000);
    let listings = [owned(&[]), owned(&["other.mp3"]), owned(&["song.mp3"])];
    let (tick, decided) = await_completion(&detector, &listings);
    assert_eq!(tick, 2);
    assert_eq!(decided, Poll::Landed);
}

#[test]
fn file_beside_its_marker_has_not_landed() {
    let detector = Detector::new("song.mp3", 1000);
    let listing = owned(&["song.mp3", "song.mp3.crdownload"]);
    assert_eq!(detector.poll(0, Some(&listing), true), Poll::Pending { wait_ms: 500 });
}

#[test]
fn marker_of_another_file_does_not_count() {
    let detector = Detector::new("song.mp3", 1000);
    let listing = owned(&["other.mp3.crdownload", "song.mp3"]);
    assert_eq!(detector.poll(0, Some(&listing), true), Poll::Landed);
}

#[test]
fn unreadable_directory_fails_the_wait() {
    let detector = Detector::new("song.mp3", 1000);
    assert_eq!(detector.poll(0, None, true), Poll::Failed(DetectorError::DirectoryUnreadable));
}

#[test]
fn time_is_up_even_when_the_file_is_there() {
    let detector = Detector::new("song.mp3", 1000);
    let listing = owned(&["song.mp3"]);
    assert_eq!(
        detector.poll(2000, Some(&listing), true),
        Poll::Failed(DetectorError::TimedOut { elapsed_ms: 2000 })
    );
    assert_eq!(
        detector.poll(2000, None, true),
        Poll::Failed(DetectorError::TimedOut { elapsed_ms: 2000 })
    );
}

#[test]
fn configured_directory_comes_first() {
    match choose_download_dir(Some("/data/songs"), Some("/home/alice".to_string())) {
        Ok(DownloadDir::Configured(path)) => assert_eq!(path, "/data/songs"),
        _ => panic!("the configured directory was not chosen"),
    }
    match choose_download_dir(Some("/data/songs"), None) {
        Ok(DownloadDir::Configured(path)) => assert_eq!(path, "/data/songs"),
        _ => panic!("the configured directory was not chosen"),
    }
    match locate_download_dir(Some("/data/songs")) {
        Ok(DownloadDir::Configured(path)) => assert_eq!(path, "/data/songs"),
        _ => panic!("the configured directory was not chosen"),
    }
}

#[test]
fn default_directory_lies_below_home() {
    match choose_download_dir(None, Some("/home/alice".to_string())) {
        Ok(DownloadDir::UnderHome(home)) => assert_eq!(home, "/home/alice"),
        _ => panic!("the home directory was not chosen"),
    }
}

#[test]
fn default_directory_needs_a_home() {
    match choose_download_dir(None, None) {
        Err(error) => assert_eq!(error, FatalError::NoHomeDirectory),
        Ok(_) => panic!("a directory was chosen without a home"),
    }
}

#[test]
fn located_default_directory_lies_below_home_or_is_unknown() {
    match locate_download_dir(None) {
        Ok(DownloadDir::UnderHome(home)) => assert!(!home.is_empty()),
        Err(error) => assert_eq!(error, FatalError::NoHomeDirectory),
        Ok(DownloadDir::Configured(_)) => panic!("nothing was configured"),
    }
}

#[test]
fn default_directory_has_to_exist() {
    let default_dir = DownloadDir::UnderHome("/home/alice".to_string());
    assert_eq!(default_dir.confirm(true), Ok(()));
    assert_eq!(default_dir.confirm(false), Err(FatalError::NoDownloadDirectory));
    let configured = DownloadDir::Configured("/data/songs".to_string());
    assert_eq!(configured.confirm(true), Ok(()));
    assert_eq!(configured.confirm(false), Ok(()));
}
