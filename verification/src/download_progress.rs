//! The progress store: which song a download run belongs to and which of its
//! tracks have already been fetched.
//!
//! The store is held in memory. Every change reports, as a [`Persist`], what
//! has to happen to the progress file so that the file keeps mirroring it.

use crate::text::{
    clone_names, contains_name, lemma_names_push, names, occurrences, optional_text, same_text,
};
use vstd::prelude::*;

verus! {

/// Name of the progress file inside its directory.
pub const PROGRESS_FILE_NAME: &'static str = ".kv_download_progress.json";

/// What a change to the store asks of the progress file.
#[derive(Clone, Copy, Debug, PartialEq, Eq, Structural)]
pub enum Persist {
    /// The file is already up to date.
    Nothing,
    /// The file must be replaced as a whole by the current record.
    Save,
    /// The file must be deleted.
    Remove,
}

impl Persist {
    /// What two changes, one after the other, ask of the progress file: what
    /// the second asks, or what the first asks where the second asks nothing.
    pub open spec fn and_next(self, next: Persist) -> Persist {
        if next == Persist::Nothing {
            self
        } else {
            next
        }
    }

    /// What this change followed by `next` asks of the progress file.
    pub fn followed_by(self, next: Persist) -> (both: Persist)
        ensures
            both == self.and_next(next),
    {
        match next {
            Persist::Nothing => self,
            _ => next,
        }
    }
}

/// The mathematical content of a progress record.
pub struct ProgressView {
    pub url: Seq<char>,
    pub completed_tracks: Seq<Seq<char>>,
}

impl ProgressView {
    /// The record of a store that was never written: no song, no track.
    pub open spec fn empty() -> ProgressView {
        ProgressView { url: Seq::empty(), completed_tracks: Seq::empty() }
    }

    /// Whether `track` is recorded as completed.
    pub open spec fn has(self, track: Seq<char>) -> bool {
        self.completed_tracks.contains(track)
    }

    /// The record after `track` has been marked as completed.
    pub open spec fn mark(self, track: Seq<char>) -> ProgressView {
        if self.has(track) {
            self
        } else {
            ProgressView { url: self.url, completed_tracks: self.completed_tracks.push(track) }
        }
    }

    /// The record after each of `tracks` has been marked, first to last.
    pub open spec fn mark_all(self, tracks: Seq<Seq<char>>) -> ProgressView
        decreases tracks.len(),
    {
        if tracks.len() == 0 {
            self
        } else {
            self.mark_all(tracks.drop_last()).mark(tracks.last())
        }
    }

    /// The record with its song replaced and its tracks kept.
    pub open spec fn with_url(self, url: Seq<char>) -> ProgressView {
        ProgressView { url, completed_tracks: self.completed_tracks }
    }

    /// No track is recorded twice.
    pub open spec fn wf(self) -> bool {
        self.completed_tracks.no_duplicates()
    }

    /// How often `track` is recorded.
    pub open spec fn count(self, track: Seq<char>) -> nat {
        occurrences(self.completed_tracks, track)
    }
}

/// The record kept between runs: the song and the tracks already fetched.
pub struct ProgressData {
    url: String,
    completed_tracks: Vec<String>,
}

impl View for ProgressData {
    type V = ProgressView;

    closed spec fn view(&self) -> ProgressView {
        ProgressView { url: self.url@, completed_tracks: names(self.completed_tracks@) }
    }
}

impl ProgressData {
    /// The empty record.
    pub fn new() -> (record: ProgressData)
        ensures
            record@ == ProgressView::empty(),
            record@.wf(),
    {
        let record = ProgressData { url: String::new(), completed_tracks: Vec::new() };
        assert(names(record.completed_tracks@) =~= Seq::<Seq<char>>::empty());
        record
    }

    /// The record for `url` in which each of `completed_tracks` is marked once,
    /// in the order of its first occurrence.
    pub fn from_parts(url: &str, completed_tracks: &Vec<String>) -> (record: ProgressData)
        ensures
            record@ == ProgressView::empty().with_url(url@).mark_all(names(completed_tracks@)),
            record@.wf(),
    {
        let mut record = ProgressData { url: url.to_owned(), completed_tracks: Vec::new() };
        assert(names(record.completed_tracks@) =~= Seq::<Seq<char>>::empty());
        let ghost all = names(completed_tracks@);
        let ghost start = record@;
        let mut i: usize = 0;
        while i < completed_tracks.len()
            invariant
                i <= completed_tracks.len(),
                all == names(completed_tracks@),
                start == ProgressView::empty().with_url(url@),
                record@ == start.mark_all(all.take(i as int)),
                record@.wf(),
            decreases completed_tracks.len() - i,
        {
            assert(all.take(i + 1).drop_last() =~= all.take(i as int));
            assert(all.take(i + 1).last() == completed_tracks@[i as int]@);
            record.mark(completed_tracks[i].as_str());
            i += 1;
        }
        assert(all.take(i as int) =~= all);
        record
    }

    /// A copy of the record.
    pub fn duplicate(&self) -> (copy: ProgressData)
        ensures
            copy@ == self@,
    {
        ProgressData {
            url: self.url.clone(),
            completed_tracks: clone_names(&self.completed_tracks),
        }
    }

    /// The song this record belongs to.
    pub fn url(&self) -> (url: &str)
        ensures
            url@ == self@.url,
    {
        self.url.as_str()
    }

    /// The completed tracks, in the order in which they were marked.
    pub fn completed_tracks(&self) -> (tracks: Vec<String>)
        ensures
            names(tracks@) == self@.completed_tracks,
    {
        clone_names(&self.completed_tracks)
    }

    /// Whether `track_name` is marked as completed.
    pub fn contains(&self, track_name: &str) -> (found: bool)
        ensures
            found == self@.has(track_name@),
    {
        contains_name(&self.completed_tracks, track_name)
    }

    /// Marks `track_name` as completed; the result tells whether the record
    /// changed.
    pub fn mark(&mut self, track_name: &str) -> (changed: bool)
        ensures
            final(self)@ == old(self)@.mark(track_name@),
            changed == !old(self)@.has(track_name@),
            old(self)@.wf() ==> final(self)@.wf(),
    {
        if contains_name(&self.completed_tracks, track_name) {
            false
        } else {
            let name = track_name.to_owned();
            proof {
                lemma_names_push(self.completed_tracks@, name);
                if self@.wf() {
                    lemma_mark_keeps_wf(self@, track_name@);
                }
            }
            self.completed_tracks.push(name);
            true
        }
    }

    /// Replaces the song and keeps the completed tracks.
    pub fn set_url(&mut self, url: &str)
        ensures
            final(self)@ == old(self)@.with_url(url@),
    {
        self.url = url.to_owned();
    }

    /// Whether this record belongs to the song `url`.
    pub fn is_for(&self, url: &str) -> (same: bool)
        ensures
            same == (self@.url == url@),
    {
        same_text(self.url.as_str(), url)
    }
}

/// The mathematical content of the progress store.
pub struct StoreView {
    /// The directory that holds the progress file; `None` is the current one.
    pub base_dir: Option<Seq<char>>,
    /// The persisted record; `None` while no progress file exists.
    pub record: Option<ProgressView>,
}

impl StoreView {
    /// The persisted record, or the empty one where none is persisted.
    pub open spec fn current(self) -> ProgressView {
        match self.record {
            Some(record) => record,
            None => ProgressView::empty(),
        }
    }

    /// Whether `track` is recorded as completed.
    pub open spec fn is_track_downloaded(self, track: Seq<char>) -> bool {
        self.current().has(track)
    }

    /// Whether a record is persisted and belongs to the song `url`.
    pub open spec fn is_same_url(self, url: Seq<char>) -> bool {
        self.record matches Some(record) && record.url == url
    }

    /// The completed tracks; none where nothing is persisted.
    pub open spec fn completed_tracks(self) -> Seq<Seq<char>> {
        self.current().completed_tracks
    }

    /// The store after `track` has been marked as completed.
    pub open spec fn mark_track_downloaded(self, track: Seq<char>) -> StoreView {
        StoreView { base_dir: self.base_dir, record: Some(self.current().mark(track)) }
    }

    /// The store after its song has been set to `url`.
    pub open spec fn set_url(self, url: Seq<char>) -> StoreView {
        StoreView { base_dir: self.base_dir, record: Some(self.current().with_url(url)) }
    }

    /// The store after everything persisted has been deleted.
    pub open spec fn clear(self) -> StoreView {
        StoreView { base_dir: self.base_dir, record: None }
    }

    /// The persisted record, if any, lists no track twice.
    pub open spec fn wf(self) -> bool {
        self.record matches Some(record) ==> record.wf()
    }
}

/// The content of an optional record.
pub open spec fn optional_record(record: Option<ProgressData>) -> Option<ProgressView> {
    match record {
        Some(r) => Some(r@),
        None => None,
    }
}

/// The progress store of one download directory.
pub struct DownloadProgress {
    base_dir: Option<String>,
    record: Option<ProgressData>,
}

impl View for DownloadProgress {
    type V = StoreView;

    closed spec fn view(&self) -> StoreView {
        StoreView {
            base_dir: match self.base_dir {
                Some(dir) => Some(dir@),
                None => None,
            },
            record: optional_record(self.record),
        }
    }
}

impl DownloadProgress {
    /// The store whose progress file lies in the current directory, with
    /// nothing persisted.
    pub fn new() -> (store: DownloadProgress)
        ensures
            store@ == (StoreView { base_dir: None, record: None }),
            store@.wf(),
    {
        DownloadProgress { base_dir: None, record: None }
    }

    /// The store whose progress file lies in `download_path`, or in the
    /// current directory where none is given, with nothing persisted.
    pub fn new_with_path(download_path: Option<&str>) -> (store: DownloadProgress)
        ensures
            store@ == (StoreView { base_dir: optional_text(download_path), record: None }),
            store@.wf(),
    {
        let base_dir = match download_path {
            Some(path) => Some(path.to_owned()),
            None => None,
        };
        DownloadProgress { base_dir, record: None }
    }

    /// The directory that holds the progress file; `None` is the current one.
    pub fn base_dir(&self) -> (dir: Option<&str>)
        ensures
            optional_text(dir) == self@.base_dir,
    {
        match &self.base_dir {
            Some(dir) => Some(dir.as_str()),
            None => None,
        }
    }

    /// Takes over what the progress file held when it was read: `None` where
    /// the file does not exist.
    pub fn load(&mut self, persisted: Option<ProgressData>)
        ensures
            final(self)@ == (StoreView {
                base_dir: old(self)@.base_dir,
                record: optional_record(persisted),
            }),
    {
        self.record = persisted;
    }

    /// The record that the progress file has to hold; `None` where the file
    /// must not exist.
    pub fn record(&self) -> (record: &Option<ProgressData>)
        ensures
            optional_record(*record) == self@.record,
    {
        &self.record
    }

    /// The persisted record, or the empty record where none is persisted.
    pub fn current(&self) -> (record: ProgressData)
        ensures
            record@ == self@.current(),
    {
        match &self.record {
            Some(record) => record.duplicate(),
            None => ProgressData::new(),
        }
    }

    /// Whether `track_name` is recorded as completed.
    pub fn is_track_downloaded(&self, track_name: &str) -> (downloaded: bool)
        ensures
            downloaded == self@.is_track_downloaded(track_name@),
    {
        match &self.record {
            Some(record) => record.contains(track_name),
            None => false,
        }
    }

    /// Records `track_name` as completed. Nothing changes where it already
    /// is; otherwise the record must be saved.
    pub fn mark_track_downloaded(&mut self, track_name: &str) -> (persist: Persist)
        ensures
            final(self)@ == old(self)@.mark_track_downloaded(track_name@),
            persist == if old(self)@.is_track_downloaded(track_name@) {
                Persist::Nothing
            } else {
                Persist::Save
            },
            old(self)@.wf() ==> final(self)@.wf(),
    {
        let mut record = match self.record.take() {
            Some(record) => record,
            None => ProgressData::new(),
        };
        let changed = record.mark(track_name);
        self.record = Some(record);
        if changed {
            Persist::Save
        } else {
            Persist::Nothing
        }
    }

    /// Sets the song to `url` and keeps the completed tracks. The record must
    /// be saved.
    pub fn set_url(&mut self, url: &str) -> (persist: Persist)
        ensures
            final(self)@ == old(self)@.set_url(url@),
            persist == Persist::Save,
            old(self)@.wf() ==> final(self)@.wf(),
    {
        let mut record = match self.record.take() {
            Some(record) => record,
            None => ProgressData::new(),
        };
        record.set_url(url);
        self.record = Some(record);
        Persist::Save
    }

    /// Whether a record is persisted and belongs to the song `url`.
    pub fn is_same_url(&self, url: &str) -> (same: bool)
        ensures
            same == self@.is_same_url(url@),
    {
        match &self.record {
            Some(record) => record.is_for(url),
            None => false,
        }
    }

    /// Forgets everything persisted. The progress file must be removed where
    /// there was one.
    pub fn clear(&mut self) -> (persist: Persist)
        ensures
            final(self)@ == old(self)@.clear(),
            persist == if old(self)@.record is Some {
                Persist::Remove
            } else {
                Persist::Nothing
            },
            final(self)@.wf(),
    {
        let had_record = self.record.is_some();
        self.record = None;
        if had_record {
            Persist::Remove
        } else {
            Persist::Nothing
        }
    }

    /// The completed tracks, in the order in which they were marked; none
    /// where nothing is persisted.
    pub fn get_completed_tracks(&self) -> (tracks: Vec<String>)
        ensures
            names(tracks@) == self@.completed_tracks(),
    {
        match &self.record {
            Some(record) => record.completed_tracks(),
            None => {
                let tracks: Vec<String> = Vec::new();
                assert(names(tracks@) =~= Seq::<Seq<char>>::empty());
                tracks
            },
        }
    }
}

impl Default for DownloadProgress {
    fn default() -> (store: DownloadProgress)
        ensures
            store@ == (StoreView { base_dir: None, record: None }),
    {
        DownloadProgress::new()
    }
}

/// Marking keeps a record free of duplicates.
pub proof fn lemma_mark_keeps_wf(record: ProgressView, track: Seq<char>)
    requires
        record.wf(),
    ensures
        record.mark(track).wf(),
        record.mark(track).has(track),
        forall|other: Seq<char>| record.has(other) ==> record.mark(track).has(other),
        forall|other: Seq<char>| record.mark(track).has(other) ==> record.has(other) || other == track,
{
    let after = record.mark(track).completed_tracks;
    if !record.has(track) {
        let n = record.completed_tracks.len() as int;
        assert(after[n] == track);
        assert forall|i: int, j: int| 0 <= i < after.len() && 0 <= j < after.len() && i != j
            implies after[i] != after[j] by {
            if i < n && j < n {
                assert(record.completed_tracks[i] != record.completed_tracks[j]);
            } else if i < n {
                assert(record.completed_tracks.contains(after[i]));
            } else {
                assert(record.completed_tracks.contains(after[j]));
            }
        }
        assert forall|other: Seq<char>| record.has(other) implies record.mark(track).has(
            other,
        ) by {
            let i = choose|i: int|
                0 <= i < record.completed_tracks.len() && record.completed_tracks[i] == other;
            assert(after[i] == other);
        }
        assert forall|other: Seq<char>| record.mark(track).has(other) implies record.has(other)
            || other == track by {
            let i = choose|i: int| 0 <= i < after.len() && after[i] == other;
            if i < n {
                assert(record.completed_tracks[i] == other);
            }
        }
    }
}

/// Marking a track twice is the same as marking it once, and leaves it
/// recorded exactly once.
pub proof fn lemma_mark_idempotent(record: ProgressView, track: Seq<char>)
    requires
        record.wf(),
    ensures
        record.mark(track).mark(track) == record.mark(track),
        record.mark(track).mark(track).count(track) == 1,
{
    lemma_mark_keeps_wf(record, track);
    lemma_count_of_member(record.mark(track).completed_tracks, track);
}

/// Marking a track in the store twice is the same as marking it once, and
/// leaves it recorded exactly once.
pub proof fn lemma_mark_track_downloaded_idempotent(store: StoreView, track: Seq<char>)
    requires
        store.wf(),
    ensures
        store.mark_track_downloaded(track).mark_track_downloaded(track)
            == store.mark_track_downloaded(track),
        store.mark_track_downloaded(track).mark_track_downloaded(track).current().count(track)
            == 1,
        store.mark_track_downloaded(track).wf(),
{
    lemma_mark_keeps_wf(store.current(), track);
    lemma_mark_idempotent(store.current(), track);
}

/// In a list without duplicates a member occurs exactly once.
pub proof fn lemma_count_of_member(list: Seq<Seq<char>>, track: Seq<char>)
    requires
        list.no_duplicates(),
        list.contains(track),
    ensures
        occurrences(list, track) == 1,
    decreases list.len(),
{
    let rest = list.drop_last();
    if list.last() == track {
        assert forall|i: int| 0 <= i < rest.len() implies rest[i] != track by {
            assert(list[i] != list[list.len() - 1]);
        }
        lemma_count_of_absent(rest, track);
    } else {
        let i = choose|i: int| 0 <= i < list.len() && list[i] == track;
        assert(rest[i] == track);
        assert(rest.no_duplicates());
        lemma_count_of_member(rest, track);
    }
}

/// A list that lacks `track` counts none.
pub proof fn lemma_count_of_absent(list: Seq<Seq<char>>, track: Seq<char>)
    requires
        !list.contains(track),
    ensures
        occurrences(list, track) == 0,
    decreases list.len(),
{
    if list.len() > 0 {
        let rest = list.drop_last();
        assert(list[list.len() - 1] != track);
        assert forall|i: int| 0 <= i < rest.len() implies rest[i] != track by {
            assert(list[i] == rest[i]);
        }
        lemma_count_of_absent(rest, track);
    }
}

} // verus!
