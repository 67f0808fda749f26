//! Telling when a download has landed. The browser does not say so; what
//! can be seen is the download directory, in which an unfinished download
//! bears a marker name. The detector looks at the directory at a fixed
//! interval until the marker is gone and the file is there, or until the
//! time is up.

use crate::error::FatalError;
use crate::text::{contains_name, names, optional_string, optional_text};
use vstd::prelude::*;
use vstd::string::StringExecFns;

verus! {

/// A download is given this many seconds to land.
pub const DOWNLOAD_COMPLETION_TIMEOUT_SECS: u64 = 300;

/// A download is given this many milliseconds to land.
pub const DOWNLOAD_COMPLETION_TIMEOUT_MS: u64 = DOWNLOAD_COMPLETION_TIMEOUT_SECS * 1000;

/// The directory is looked at every so many milliseconds.
pub const POLL_INTERVAL_MS: u64 = 500;

/// What the browser appends to the name of a file that it is still writing.
pub const IN_PROGRESS_SUFFIX: &'static str = ".crdownload";

/// The folder below the home directory in which downloads land by default.
pub const DEFAULT_DOWNLOAD_FOLDER: &'static str = "Downloads";

/// Why a download was not seen to land.
#[derive(Clone, Copy, Debug, PartialEq, Eq, Structural)]
pub enum DetectorError {
    /// The time was up; so many milliseconds had passed.
    TimedOut { elapsed_ms: u64 },
    /// The download directory could not be read.
    DirectoryUnreadable,
}

/// What one look at the download directory leads to.
#[derive(Clone, Copy, Debug, PartialEq, Eq, Structural)]
pub enum Poll {
    /// Nothing is decided: look again after so many milliseconds.
    Pending { wait_ms: u64 },
    /// The download has landed.
    Landed,
    /// The download is not waited for any longer.
    Failed(DetectorError),
}

/// What one look at the download directory shows.
pub struct Sighting {
    /// The names in the directory; `None` where it could not be read.
    pub entries: Option<Seq<Seq<char>>>,
    /// Whether the awaited file exists.
    pub artifact_exists: bool,
}

/// The mathematical content of a detector.
pub struct DetectorView {
    /// The name of the awaited file.
    pub expected_filename: Seq<char>,
    /// After how many milliseconds the detector gives up.
    pub timeout_ms: u64,
}

impl DetectorView {
    /// The name that the awaited file bears while it is being written.
    pub open spec fn marker_name(self) -> Seq<char> {
        self.expected_filename + IN_PROGRESS_SUFFIX@
    }

    /// Whether the marker of the awaited file shows in `sighting`.
    pub open spec fn marker_present(self, sighting: Sighting) -> bool {
        sighting.entries matches Some(entries) && entries.contains(self.marker_name())
    }

    /// Whether `sighting` shows the download landed: the directory is read,
    /// the marker is gone and the file exists.
    pub open spec fn landed(self, sighting: Sighting) -> bool {
        sighting.entries is Some && !self.marker_present(sighting) && sighting.artifact_exists
    }

    /// What a look at the directory leads to after `elapsed_ms`.
    pub open spec fn decide(self, elapsed_ms: u64, sighting: Sighting) -> Poll {
        if elapsed_ms > self.timeout_ms {
            Poll::Failed(DetectorError::TimedOut { elapsed_ms })
        } else if sighting.entries is None {
            Poll::Failed(DetectorError::DirectoryUnreadable)
        } else if self.landed(sighting) {
            Poll::Landed
        } else {
            Poll::Pending { wait_ms: POLL_INTERVAL_MS }
        }
    }

    /// What waiting leads to when the directory is looked at every
    /// [`POLL_INTERVAL_MS`] from the start on and shows `sightings` one
    /// after the other, for the looks from number `tick` on: the number of
    /// the look that decided and what it decided; `None` where none of them
    /// decided.
    pub open spec fn await_completion(self, sightings: Seq<Sighting>, tick: int) -> Option<
        (int, Poll),
    >
        decreases sightings.len() - tick,
    {
        if tick < 0 || tick >= sightings.len() {
            None
        } else {
            let poll = self.decide((tick * POLL_INTERVAL_MS) as u64, sightings[tick]);
            if poll is Pending {
                self.await_completion(sightings, tick + 1)
            } else {
                Some((tick, poll))
            }
        }
    }

    /// The number of the first look that comes after the time is up.
    pub open spec fn last_tick(self) -> int {
        self.timeout_ms / POLL_INTERVAL_MS + 1
    }
}

/// The names in an optional list.
pub open spec fn optional_entries(entries: Option<&Vec<String>>) -> Option<Seq<Seq<char>>> {
    match entries {
        Some(list) => Some(names(list@)),
        None => None,
    }
}

/// Waits for one file to land in the download directory.
pub struct Detector {
    expected_filename: String,
    timeout_ms: u64,
}

impl View for Detector {
    type V = DetectorView;

    closed spec fn view(&self) -> DetectorView {
        DetectorView { expected_filename: self.expected_filename@, timeout_ms: self.timeout_ms }
    }
}

impl Detector {
    /// The detector that waits `timeout_ms` for `expected_filename`.
    pub fn new(expected_filename: &str, timeout_ms: u64) -> (detector: Detector)
        ensures
            detector@ == (DetectorView { expected_filename: expected_filename@, timeout_ms }),
    {
        Detector { expected_filename: expected_filename.to_owned(), timeout_ms }
    }

    /// The name of the awaited file.
    pub fn expected_filename(&self) -> (name: &str)
        ensures
            name@ == self@.expected_filename,
    {
        self.expected_filename.as_str()
    }

    /// The name that the awaited file bears while it is being written.
    pub fn marker_name(&self) -> (name: String)
        ensures
            name@ == self@.marker_name(),
    {
        self.expected_filename.clone().concat(IN_PROGRESS_SUFFIX)
    }

    /// Decides on one look at the download directory, `elapsed_ms` after the
    /// wait began. `entries` are the names in the directory, `None` where it
    /// could not be read; `artifact_exists` says whether the awaited file
    /// exists.
    ///
    /// Once the time is up the wait has failed, whatever the directory
    /// shows. Before that, the download has landed when the marker is gone
    /// and the file exists; otherwise the directory is looked at again.
    pub fn poll(&self, elapsed_ms: u64, entries: Option<&Vec<String>>, artifact_exists: bool) -> (poll:
        Poll)
        ensures
            poll == self@.decide(
                elapsed_ms,
                Sighting { entries: optional_entries(entries), artifact_exists },
            ),
    {
        if elapsed_ms > self.timeout_ms {
            return Poll::Failed(DetectorError::TimedOut { elapsed_ms });
        }
        match entries {
            None => Poll::Failed(DetectorError::DirectoryUnreadable),
            Some(list) => {
                let marker = self.marker_name();
                if !contains_name(list, marker.as_str()) && artifact_exists {
                    Poll::Landed
                } else {
                    Poll::Pending { wait_ms: POLL_INTERVAL_MS }
                }
            },
        }
    }
}

/// While the marker shows and the time is not up, every look asks for
/// another one.
pub proof fn lemma_waits_while_marker_shows(
    detector: DetectorView,
    elapsed_ms: u64,
    sighting: Sighting,
)
    requires
        detector.marker_present(sighting),
    ensures
        elapsed_ms <= detector.timeout_ms ==> detector.decide(elapsed_ms, sighting)
            == (Poll::Pending { wait_ms: POLL_INTERVAL_MS }),
        elapsed_ms > detector.timeout_ms ==> detector.decide(elapsed_ms, sighting) == Poll::Failed(
            DetectorError::TimedOut { elapsed_ms },
        ),
{
}

/// A download whose marker never goes away is waited for until the time is
/// up and no longer: the first look after the time is up fails the wait,
/// less than one interval late.
pub proof fn lemma_times_out_when_marker_stays(detector: DetectorView, sightings: Seq<Sighting>)
    requires
        sightings.len() > detector.last_tick(),
        detector.last_tick() * POLL_INTERVAL_MS <= u64::MAX,
        forall|i: int| 0 <= i < sightings.len() ==> detector.marker_present(#[trigger] sightings[i]),
    ensures
        detector.await_completion(sightings, 0) == Some(
            (
                detector.last_tick(),
                Poll::Failed(
                    DetectorError::TimedOut {
                        elapsed_ms: (detector.last_tick() * POLL_INTERVAL_MS) as u64,
                    },
                ),
            ),
        ),
        detector.timeout_ms < detector.last_tick() * POLL_INTERVAL_MS <= detector.timeout_ms
            + POLL_INTERVAL_MS,
{
    lemma_pending_until(detector, sightings, 0, detector.last_tick());
}

/// A download lands with the first look that shows its marker gone and its
/// file there, provided that every look before it could read the directory
/// and that the time is not up by then.
pub proof fn lemma_completes_when_file_lands(
    detector: DetectorView,
    sightings: Seq<Sighting>,
    tick: int,
)
    requires
        0 <= tick < sightings.len(),
        tick * POLL_INTERVAL_MS <= detector.timeout_ms,
        detector.landed(sightings[tick]),
        forall|i: int|
            0 <= i < tick ==> (#[trigger] sightings[i]).entries is Some && !detector.landed(
                sightings[i],
            ),
    ensures
        detector.await_completion(sightings, 0) == Some((tick, Poll::Landed)),
{
    lemma_pending_until(detector, sightings, 0, tick);
}

/// Looks that decide nothing are passed over: where every look from `from`
/// up to `until` is within the time and shows a readable directory in which
/// the download has not landed, waiting from `from` is waiting from `until`.
pub proof fn lemma_pending_until(
    detector: DetectorView,
    sightings: Seq<Sighting>,
    from: int,
    until: int,
)
    requires
        0 <= from <= until < sightings.len(),
        until * POLL_INTERVAL_MS <= u64::MAX,
        forall|i: int|
            from <= i < until ==> i * POLL_INTERVAL_MS <= detector.timeout_ms && (
            #[trigger] sightings[i]).entries is Some && !detector.landed(sightings[i]),
    ensures
        detector.await_completion(sightings, from) == detector.await_completion(sightings, until),
    decreases until - from,
{
    if from < until {
        assert(sightings[from].entries is Some);
        assert(from * POLL_INTERVAL_MS <= detector.timeout_ms);
        lemma_pending_until(detector, sightings, from + 1, until);
    }
}

/// Where the downloads of a run land.
pub enum DownloadDir {
    /// In the directory that the caller named.
    Configured(String),
    /// In the default folder below this home directory.
    UnderHome(String),
}

/// The mathematical content of a download directory.
pub enum DownloadDirView {
    Configured(Seq<char>),
    UnderHome(Seq<char>),
}

impl View for DownloadDir {
    type V = DownloadDirView;

    open spec fn view(&self) -> DownloadDirView {
        match self {
            DownloadDir::Configured(path) => DownloadDirView::Configured(path@),
            DownloadDir::UnderHome(home) => DownloadDirView::UnderHome(home@),
        }
    }
}

/// Where downloads land for a configured directory and a home directory.
pub open spec fn chosen_download_dir(configured: Option<Seq<char>>, home: Option<Seq<char>>)
    -> Result<DownloadDirView, FatalError> {
    match configured {
        Some(path) => Ok(DownloadDirView::Configured(path)),
        None => match home {
            Some(home) => Ok(DownloadDirView::UnderHome(home)),
            None => Err(FatalError::NoHomeDirectory),
        },
    }
}

/// The content of the result of choosing a download directory.
pub open spec fn dir_result_view(result: Result<DownloadDir, FatalError>) -> Result<
    DownloadDirView,
    FatalError,
> {
    match result {
        Ok(dir) => Ok(dir@),
        Err(error) => Err(error),
    }
}

/// The home directory of the user as `dirs::home_dir` reports it, which
/// depends on the environment of the process; nothing is claimed of it. A
/// path that is not valid Unicode is rendered with replacement characters.
#[verifier::external_body]
fn home_dir() -> (home: Option<String>) {
    match dirs::home_dir() {
        Some(path) => Some(path.to_string_lossy().into_owned()),
        None => None,
    }
}

/// Where downloads land: in the configured directory where there is one,
/// else in the default folder below the home directory `home`, which has to
/// be known then.
pub fn choose_download_dir(configured: Option<&str>, home: Option<String>) -> (chosen: Result<
    DownloadDir,
    FatalError,
>)
    ensures
        dir_result_view(chosen) == chosen_download_dir(
            optional_text(configured),
            optional_string(home),
        ),
{
    match configured {
        Some(path) => Ok(DownloadDir::Configured(path.to_owned())),
        None => match home {
            Some(home) => Ok(DownloadDir::UnderHome(home)),
            None => Err(FatalError::NoHomeDirectory),
        },
    }
}

/// Where downloads land: in the configured directory where there is one,
/// else in the default folder below the home directory of the user, which
/// is asked for only then and has to be known.
pub fn locate_download_dir(configured: Option<&str>) -> (located: Result<DownloadDir, FatalError>)
    ensures
        configured matches Some(path) ==> dir_result_view(located) == Ok::<
            DownloadDirView,
            FatalError,
        >(DownloadDirView::Configured(path@)),
        configured is None ==> (located matches Ok(dir) && dir is UnderHome) || located == Err::<
            DownloadDir,
            FatalError,
        >(FatalError::NoHomeDirectory),
{
    match configured {
        Some(_) => choose_download_dir(configured, None),
        None => choose_download_dir(configured, home_dir()),
    }
}

impl DownloadDirView {
    /// Whether the directory can be used, given whether it exists: the
    /// default folder has to exist, a configured directory is taken as it
    /// is.
    pub open spec fn confirmed(self, exists: bool) -> Result<(), FatalError> {
        if self is UnderHome && !exists {
            Err(FatalError::NoDownloadDirectory)
        } else {
            Ok(())
        }
    }
}

impl DownloadDir {
    /// Checks that the directory can be used, given whether it exists: the
    /// default folder has to exist, a configured directory is taken as it
    /// is.
    pub fn confirm(&self, exists: bool) -> (verdict: Result<(), FatalError>)
        ensures
            verdict == self@.confirmed(exists),
    {
        match self {
            DownloadDir::UnderHome(_) => {
                if exists {
                    Ok(())
                } else {
                    Err(FatalError::NoDownloadDirectory)
                }
            },
            DownloadDir::Configured(_) => Ok(()),
        }
    }
}

} // verus!
