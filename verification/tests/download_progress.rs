use kv_downloader::download_progress::{
    DownloadProgress, Persist, ProgressData, PROGRESS_FILE_NAME,
};

fn owned(names: &[&str]) -> Vec<String> {
    names.iter().map(|n| n.to_string()).collect()
}

#[test]
fn progress_file_has_its_fixed_name() {
    assert_eq!(PROGRESS_FILE_NAME, ".kv_download_progress.json");
}

#[test]
fn new_store_holds_nothing() {
    let store = DownloadProgress::new();
    assert!(store.record().is_none());
    assert!(store.base_dir().is_none());
    assert!(!store.is_track_downloaded("Bass"));
    assert!(!store.is_same_url(""));
    assert_eq!(store.get_completed_tracks(), Vec::<String>::new());
}

#[test]
fn default_store_is_the_new_store() {
    let store = DownloadProgress::default();
    assert!(store.record().is_none());
    assert!(store.base_dir().is_none());
}

#[test]
fn store_remembers_its_directory() {
    let store = DownloadProgress::new_with_path(Some("/tmp/songs"));
    assert_eq!(store.base_dir(), Some("/tmp/songs"));
    assert!(store.record().is_none());
    let store = DownloadProgress::new_with_path(None);
    assert_eq!(store.base_dir(), None);
}

#[test]
fn mark_twice_records_once() {
    let mut store = DownloadProgress::new();
    assert_eq!(store.mark_track_downloaded("Bass"), Persist::Save);
    assert_eq!(store.mark_track_downloaded("Bass"), Persist::Nothing);
    assert_eq!(store.get_completed_tracks(), owned(&["Bass"]));
    assert!(store.is_track_downloaded("Bass"));
}

#[test]
fn marks_keep_their_order() {
    let mut store = DownloadProgress::new();
    store.mark_track_downloaded("Click");
    store.mark_track_downloaded("Drum Kit");
    store.mark_track_downloaded("Click");
    store.mark_track_downloaded("Bass");
    assert_eq!(store.get_completed_tracks(), owned(&["Click", "Drum Kit", "Bass"]));
    assert!(!store.is_track_downloaded("Lead Vocal"));
    assert!(!store.is_track_downloaded("click"));
}

#[test]
fn first_mark_creates_a_record_without_song() {
    let mut store = DownloadProgress::new();
    store.mark_track_downloaded("Bass");
    let record = store.record().as_ref().unwrap();
    assert_eq!(record.url(), "");
    assert!(store.is_same_url(""));
    assert!(!store.is_same_url("https://example.com/song"));
}

#[test]
fn set_url_keeps_completed_tracks() {
    let mut store = DownloadProgress::new();
    store.mark_track_downloaded("Bass");
    assert_eq!(store.set_url("https://example.com/a"), Persist::Save);
    assert!(store.is_same_url("https://example.com/a"));
    assert_eq!(store.get_completed_tracks(), owned(&["Bass"]));
    assert_eq!(store.set_url("https://example.com/b"), Persist::Save);
    assert!(!store.is_same_url("https://example.com/a"));
    assert!(store.is_same_url("https://example.com/b"));
    assert_eq!(store.get_completed_tracks(), owned(&["Bass"]));
}

#[test]
fn set_url_on_an_empty_store_creates_a_record() {
    let mut store = DownloadProgress::new();
    assert_eq!(store.set_url("https://example.com/a"), Persist::Save);
    assert!(store.record().is_some());
    assert_eq!(store.get_completed_tracks(), Vec::<String>::new());
}

#[test]
fn clear_removes_what_is_there_and_nothing_else() {
    let mut store = DownloadProgress::new_with_path(Some("dir"));
    assert_eq!(store.clear(), Persist::Nothing);
    store.set_url("https://example.com/a");
    store.mark_track_downloaded("Bass");
    assert_eq!(store.clear(), Persist::Remove);
    assert!(store.record().is_none());
    assert!(!store.is_track_downloaded("Bass"));
    assert!(!store.is_same_url("https://example.com/a"));
    assert_eq!(store.base_dir(), Some("dir"));
    assert_eq!(store.clear(), Persist::Nothing);
}

#[test]
fn load_takes_over_the_persisted_record() {
    let mut store = DownloadProgress::new();
    store.load(Some(ProgressData::from_parts("https://example.com/a", &owned(&["Bass"]))));
    assert!(store.is_same_url("https://example.com/a"));
    assert!(store.is_track_downloaded("Bass"));
    assert_eq!(store.mark_track_downloaded("Bass"), Persist::Nothing);
    store.load(None);
    assert!(store.record().is_none());
    assert!(!store.is_track_downloaded("Bass"));
}

#[test]
fn current_record_is_empty_where_nothing_is_persisted() {
    let mut store = DownloadProgress::new();
    let record = store.current();
    assert_eq!(record.url(), "");
    assert_eq!(record.completed_tracks(), Vec::<String>::new());
    assert!(store.record().is_none());
    store.set_url("https://example.com/a");
    store.mark_track_downloaded("Bass");
    let record = store.current();
    assert_eq!(record.url(), "https://example.com/a");
    assert_eq!(record.completed_tracks(), owned(&["Bass"]));
    let copy = record.duplicate();
    assert_eq!(copy.url(), "https://example.com/a");
    assert_eq!(copy.completed_tracks(), owned(&["Bass"]));
}

#[test]
fn from_parts_drops_repeated_tracks() {
    let record = ProgressData::from_parts("u", &owned(&["a", "b", "a", "c", "b"]));
    assert_eq!(record.url(), "u");
    assert_eq!(record.completed_tracks(), owned(&["a", "b", "c"]));
    assert!(record.contains("c"));
    assert!(!record.contains("d"));
    assert!(record.is_for("u"));
    assert!(!record.is_for("v"));
}

#[test]
fn empty_record_has_no_song_and_no_track() {
    let mut record = ProgressData::new();
    assert_eq!(record.url(), "");
    assert_eq!(record.completed_tracks(), Vec::<String>::new());
    assert!(record.mark("x"));
    assert!(!record.mark("x"));
    record.set_url("song");
    assert_eq!(record.url(), "song");
    assert_eq!(record.completed_tracks(), owned(&["x"]));
}

#[test]
fn later_change_decides_what_happens_to_the_file() {
    assert_eq!(Persist::Save.followed_by(Persist::Nothing), Persist::Save);
    assert_eq!(Persist::Save.followed_by(Persist::Remove), Persist::Remove);
    assert_eq!(Persist::Remove.followed_by(Persist::Save), Persist::Save);
    assert_eq!(Persist::Nothing.followed_by(Persist::Nothing), Persist::Nothing);
}
