//! The download run: a state machine that goes from the stored progress and
//! the wishes of the caller, through sign-in, page check, pitch and track
//! discovery, over every track with its retries, to the outcome of the run.
//!
//! The machine performs nothing itself. [`Download::action`] says what has to
//! be done next; once that is done, the method that reports it moves the
//! machine on and says what has to happen to the progress file.

use crate::download_progress::{DownloadProgress, Persist, StoreView};
use crate::download_song::{DownloadOptions, PageProbe};
use crate::error::FatalError;
use crate::pitch::PitchOutcome;
use crate::retry::{dialog_timeout, dialog_timeout_secs, retry_delay, retry_delay_secs, MAX_ATTEMPTS};
use crate::text::{clone_names, lemma_names_push, names};
use vstd::prelude::*;

verus! {

/// The lowest transposition that can be asked for.
pub const MIN_TRANSPOSE: i8 = -4;

/// The highest transposition that can be asked for.
pub const MAX_TRANSPOSE: i8 = 4;

/// The browser is left open for this many seconds after the last track.
pub const CLOSING_WAIT_SECS: u64 = 10;

/// What the caller asks of a download run.
pub struct DownloadArgs {
    /// The address of the song page.
    pub song_url: String,
    /// Whether the browser runs without a window.
    pub headless: bool,
    /// The directory in which the downloads land and the progress is kept.
    pub download_path: Option<String>,
    /// By how many semitones every track is transposed.
    pub transpose: Option<i8>,
    /// Whether every track starts with a count-in.
    pub count_in: bool,
    /// Whether progress of an earlier run is thrown away.
    pub force_restart: bool,
}

impl DownloadArgs {
    /// The transposition that is asked for: none is zero.
    pub open spec fn wanted_transpose(self) -> i8 {
        match self.transpose {
            Some(semitones) => semitones,
            None => 0,
        }
    }

    /// Whether the transposition lies within what the site offers.
    pub open spec fn transpose_in_range(self) -> bool {
        MIN_TRANSPOSE <= self.wanted_transpose() <= MAX_TRANSPOSE
    }

    /// How the tracks are to be rendered.
    pub fn options(&self) -> (options: DownloadOptions)
        ensures
            options.count_in == self.count_in,
            options.transpose == self.wanted_transpose(),
    {
        let transpose = match self.transpose {
            Some(semitones) => semitones,
            None => 0,
        };
        DownloadOptions { count_in: self.count_in, transpose }
    }

    /// Whether the transposition lies within what the site offers.
    pub fn has_valid_transpose(&self) -> (valid: bool)
        ensures
            valid == self.transpose_in_range(),
    {
        match self.transpose {
            Some(semitones) => MIN_TRANSPOSE <= semitones && semitones <= MAX_TRANSPOSE,
            None => true,
        }
    }
}

/// What a run does with the progress it finds.
#[derive(Clone, Copy, Debug, PartialEq, Eq, Structural)]
pub enum Disposition {
    /// The caller asked to start over: the progress is thrown away.
    Restart,
    /// The progress belongs to this song: its tracks are skipped.
    Resume,
    /// The progress belongs to another song: it is thrown away.
    Switch,
    /// No track is recorded: there is nothing to keep or throw away.
    Fresh,
}

/// How a run ended.
#[derive(Clone, Copy, Debug, PartialEq, Eq, Structural)]
pub enum Outcome {
    /// Every track is fetched. No progress is kept.
    Success,
    /// Some tracks failed after all their attempts. The progress is kept,
    /// so that the next run takes up the failed tracks only.
    PartialFailure,
    /// The run ended before any track was attempted.
    Fatal(FatalError),
}

/// Where a run stands.
#[derive(Clone, Copy, Debug, PartialEq, Eq, Structural)]
pub enum Phase {
    /// The credentials and the download directory are being looked for.
    Preparing,
    /// The user is being signed in.
    SigningIn,
    /// The song page is being opened and looked at.
    OpeningSong,
    /// Count-in and pitch are being set.
    Configuring,
    /// The track names are being read from the page.
    Discovering,
    /// A track is being fetched.
    Attempting,
    /// A failed attempt is being followed by its wait.
    BackingOff,
    /// The run has ended.
    Finished(Outcome),
}

/// What has to be done next.
#[derive(Clone, Copy, Debug, PartialEq, Eq, Structural)]
pub enum Action {
    /// Look for the credentials and for the download directory, then call
    /// [`Download::prepared`].
    Prepare,
    /// Sign the user in, then call [`Download::signed_in`].
    SignIn,
    /// Open the song page and look at it, then call [`Download::page_opened`].
    OpenSong,
    /// Set the count-in, bring the pitch to `transpose`, then call
    /// [`Download::configured`].
    Configure { count_in: bool, transpose: i8 },
    /// Read the track names, then call [`Download::tracks_found`].
    DiscoverTracks,
    /// Fetch the track at `index`, waiting `dialog_timeout_secs` for the
    /// download dialog, then call [`Download::attempt_finished`].
    Attempt { index: usize, attempt: u32, dialog_timeout_secs: u64 },
    /// Wait for `secs` seconds, then call [`Download::backoff_elapsed`].
    Wait { secs: u64 },
    /// Stop: the run has ended.
    Finish(Outcome),
}

/// What a run does with the progress in `store` when it is asked for the
/// song `url`.
pub open spec fn disposition_of(force_restart: bool, url: Seq<char>, store: StoreView)
    -> Disposition {
    if force_restart {
        Disposition::Restart
    } else if store.is_same_url(url) {
        Disposition::Resume
    } else if store.completed_tracks().len() > 0 {
        Disposition::Switch
    } else {
        Disposition::Fresh
    }
}

/// Whether the progress is thrown away.
pub open spec fn discards(disposition: Disposition) -> bool {
    disposition == Disposition::Restart || disposition == Disposition::Switch
}

/// The mathematical content of a run.
pub struct RunView {
    /// Where the run stands.
    pub phase: Phase,
    /// What the run did with the progress it found.
    pub disposition: Disposition,
    /// The address of the song page.
    pub url: Seq<char>,
    /// How the tracks are to be rendered.
    pub options: DownloadOptions,
    /// The progress store.
    pub store: StoreView,
    /// The tracks of the song, as discovered.
    pub tracks: Seq<Seq<char>>,
    /// The position of the track that is being fetched; every track before
    /// it is dealt with.
    pub index: int,
    /// The number of the attempt that is being made on that track.
    pub attempt: int,
    /// The tracks that failed after all their attempts, in order.
    pub failed: Seq<Seq<char>>,
}

impl RunView {
    /// The run at its start.
    pub open spec fn begin(
        url: Seq<char>,
        options: DownloadOptions,
        force_restart: bool,
        store: StoreView,
    ) -> RunView {
        RunView {
            phase: Phase::Preparing,
            disposition: disposition_of(force_restart, url, store),
            url,
            options,
            store,
            tracks: Seq::empty(),
            index: 0,
            attempt: 0,
            failed: Seq::empty(),
        }
    }

    /// The run after the credentials and the download directory were looked
    /// for: without them the run ends, with them the progress is thrown
    /// away where the run does not keep it.
    pub open spec fn prepared(self, failure: Option<FatalError>) -> RunView {
        if self.phase != Phase::Preparing {
            self
        } else {
            match failure {
                Some(error) => RunView { phase: Phase::Finished(Outcome::Fatal(error)), ..self },
                None => RunView {
                    phase: Phase::SigningIn,
                    store: if discards(self.disposition) {
                        self.store.clear()
                    } else {
                        self.store
                    },
                    ..self
                },
            }
        }
    }

    /// What the end of the preparation asks of the progress file.
    pub open spec fn prepared_persist(self, failure: Option<FatalError>) -> Persist {
        if self.phase == Phase::Preparing && failure is None && discards(self.disposition)
            && self.store.record is Some {
            Persist::Remove
        } else {
            Persist::Nothing
        }
    }

    /// The run after the user was signed in: the progress now belongs to
    /// the song of this run.
    pub open spec fn signed_in(self) -> RunView {
        if self.phase == Phase::SigningIn {
            RunView { phase: Phase::OpeningSong, store: self.store.set_url(self.url), ..self }
        } else {
            self
        }
    }

    /// The run after the song page was opened and looked at.
    pub open spec fn page_opened(self, probe: PageProbe) -> RunView {
        if self.phase == Phase::OpeningSong {
            match probe.verdict() {
                Ok(_) => RunView { phase: Phase::Configuring, ..self },
                Err(error) => RunView {
                    phase: Phase::Finished(Outcome::Fatal(FatalError::Page(error))),
                    ..self
                },
            }
        } else {
            self
        }
    }

    /// The run after count-in and pitch were set.
    pub open spec fn configured(self, pitch: PitchOutcome) -> RunView {
        if self.phase == Phase::Configuring {
            if pitch == PitchOutcome::Failed {
                RunView {
                    phase: Phase::Finished(Outcome::Fatal(FatalError::PitchNotConverged)),
                    ..self
                }
            } else {
                RunView { phase: Phase::Discovering, ..self }
            }
        } else {
            self
        }
    }

    /// The run after the track names were read.
    pub open spec fn tracks_found(self, tracks: Seq<Seq<char>>) -> RunView {
        if self.phase == Phase::Discovering {
            (RunView { tracks, index: 0, failed: Seq::empty(), ..self }).seek()
        } else {
            self
        }
    }

    /// The run with the track at `index` left behind.
    pub open spec fn past_track(self) -> RunView {
        RunView { index: self.index + 1, ..self }
    }

    /// The run taken to the next track that is not recorded as completed,
    /// there to make a first attempt, or to its end where no such track is
    /// left.
    pub open spec fn seek(self) -> RunView
        decreases self.tracks.len() - self.index,
    {
        if self.index < 0 || self.index >= self.tracks.len() {
            self.finish()
        } else if self.store.is_track_downloaded(self.tracks[self.index]) {
            self.past_track().seek()
        } else {
            RunView { phase: Phase::Attempting, attempt: 1, ..self }
        }
    }

    /// The run at its end: without a failed track the progress is thrown
    /// away, with one it is kept as it is.
    pub open spec fn finish(self) -> RunView {
        if self.failed.len() == 0 {
            RunView { phase: Phase::Finished(Outcome::Success), store: self.store.clear(), ..self }
        } else {
            RunView { phase: Phase::Finished(Outcome::PartialFailure), ..self }
        }
    }

    /// What going on to the next track or to the end asks of the progress
    /// file.
    pub open spec fn seek_persist(self) -> Persist {
        if self.seek().phase == Phase::Finished(Outcome::Success) && self.store.record is Some {
            Persist::Remove
        } else {
            Persist::Nothing
        }
    }

    /// The run with the track at `index` recorded as completed and left
    /// behind.
    pub open spec fn track_done(self) -> RunView {
        RunView {
            store: self.store.mark_track_downloaded(self.tracks[self.index]),
            index: self.index + 1,
            ..self
        }
    }

    /// The run with the track at `index` listed as failed and left behind.
    pub open spec fn track_failed(self) -> RunView {
        RunView {
            failed: self.failed.push(self.tracks[self.index]),
            index: self.index + 1,
            ..self
        }
    }

    /// The run after an attempt on the track at `index` ended.
    pub open spec fn attempt_finished(self, succeeded: bool) -> RunView {
        if self.phase != Phase::Attempting {
            self
        } else if succeeded {
            self.track_done().seek()
        } else if self.attempt < MAX_ATTEMPTS {
            RunView { phase: Phase::BackingOff, ..self }
        } else {
            self.track_failed().seek()
        }
    }

    /// What the end of an attempt asks of the progress file.
    pub open spec fn attempt_persist(self, succeeded: bool) -> Persist {
        if self.phase != Phase::Attempting {
            Persist::Nothing
        } else if succeeded {
            Persist::Save.and_next(self.track_done().seek_persist())
        } else if self.attempt < MAX_ATTEMPTS {
            Persist::Nothing
        } else {
            self.track_failed().seek_persist()
        }
    }

    /// The run after the wait that follows a failed attempt.
    pub open spec fn backoff_elapsed(self) -> RunView {
        if self.phase == Phase::BackingOff {
            RunView { phase: Phase::Attempting, attempt: self.attempt + 1, ..self }
        } else {
            self
        }
    }

    /// What has to be done next.
    pub open spec fn next_action(self) -> Action {
        match self.phase {
            Phase::Preparing => Action::Prepare,
            Phase::SigningIn => Action::SignIn,
            Phase::OpeningSong => Action::OpenSong,
            Phase::Configuring => Action::Configure {
                count_in: self.options.count_in,
                transpose: self.options.transpose,
            },
            Phase::Discovering => Action::DiscoverTracks,
            Phase::Attempting => Action::Attempt {
                index: self.index as usize,
                attempt: self.attempt as u32,
                dialog_timeout_secs: dialog_timeout(self.attempt) as u64,
            },
            Phase::BackingOff => Action::Wait { secs: retry_delay(self.attempt) as u64 },
            Phase::Finished(outcome) => Action::Finish(outcome),
        }
    }

    /// Whether the run is past its sign-in and has not ended in success or
    /// before its tracks: a record is persisted then, and it belongs to the
    /// song of the run.
    pub open spec fn holds_record(self) -> bool {
        self.phase == Phase::OpeningSong || self.phase == Phase::Configuring || self.phase
            == Phase::Discovering || self.on_a_track() || self.phase == Phase::Finished(
            Outcome::PartialFailure,
        )
    }

    /// Whether the tracks of the song are not known yet.
    pub open spec fn before_tracks(self) -> bool {
        self.phase == Phase::Preparing || self.phase == Phase::SigningIn || self.phase
            == Phase::OpeningSong || self.phase == Phase::Configuring || self.phase
            == Phase::Discovering
    }

    /// Whether a track is being worked on.
    pub open spec fn on_a_track(self) -> bool {
        self.phase == Phase::Attempting || self.phase == Phase::BackingOff
    }

    /// What holds of every run, wherever it stands.
    pub open spec fn inv(self) -> bool {
        &&& 0 <= self.index <= self.tracks.len() <= usize::MAX
        &&& self.failed.len() <= self.index
        &&& self.on_a_track() ==> {
            &&& self.index < self.tracks.len()
            &&& 1 <= self.attempt <= MAX_ATTEMPTS
            &&& !self.store.is_track_downloaded(self.tracks[self.index])
        }
        &&& self.phase == Phase::BackingOff ==> self.attempt < MAX_ATTEMPTS
        &&& self.phase == Phase::Finished(Outcome::PartialFailure) ==> {
            &&& self.failed.len() > 0
            &&& self.index == self.tracks.len()
        }
        &&& self.phase == Phase::Finished(Outcome::Success) ==> {
            &&& self.failed.len() == 0
            &&& self.index == self.tracks.len()
            &&& self.store.record is None
        }
        &&& self.holds_record() ==> self.store.is_same_url(self.url)
        &&& self.before_tracks() ==> self.index == 0
        &&& self.store.wf()
    }
}

/// A download run.
pub struct Download {
    phase: Phase,
    disposition: Disposition,
    url: String,
    options: DownloadOptions,
    store: DownloadProgress,
    tracks: Vec<String>,
    index: usize,
    attempt: u32,
    failed: Vec<String>,
}

impl View for Download {
    type V = RunView;

    closed spec fn view(&self) -> RunView {
        RunView {
            phase: self.phase,
            disposition: self.disposition,
            url: self.url@,
            options: self.options,
            store: self.store@,
            tracks: names(self.tracks@),
            index: self.index as int,
            attempt: self.attempt as int,
            failed: names(self.failed@),
        }
    }
}

impl Download {
    /// Whether the run is in a state that the machine itself can have
    /// reached.
    pub open spec fn wf(&self) -> bool {
        self@.inv()
    }

    /// Starts a run for `args` on the progress found in `store`.
    ///
    /// The run decides here what it will do with that progress: throw it
    /// away where the caller asks to start over and where it lists tracks
    /// of another song, keep it where it belongs to this song.
    pub fn run(args: &DownloadArgs, store: DownloadProgress) -> (run: Download)
        requires
            store@.wf(),
        ensures
            run@ == RunView::begin(
                args.song_url@,
                DownloadOptions { count_in: args.count_in, transpose: args.wanted_transpose() },
                args.force_restart,
                store@,
            ),
            run.wf(),
    {
        let url = args.song_url.clone();
        let disposition = if args.force_restart {
            Disposition::Restart
        } else if store.is_same_url(url.as_str()) {
            Disposition::Resume
        } else if store.get_completed_tracks().len() > 0 {
            Disposition::Switch
        } else {
            Disposition::Fresh
        };
        let run = Download {
            phase: Phase::Preparing,
            disposition,
            url,
            options: args.options(),
            store,
            tracks: Vec::new(),
            index: 0,
            attempt: 0,
            failed: Vec::new(),
        };
        assert(names(run.tracks@) =~= Seq::<Seq<char>>::empty());
        assert(names(run.failed@) =~= Seq::<Seq<char>>::empty());
        run
    }

    /// Reports whether the credentials and the download directory were
    /// found: `failure` says what is missing, if anything. Without them the
    /// run ends. With them the user is signed in next, and the progress
    /// that the run does not keep is thrown away, which removes the
    /// progress file. Ignored where no preparation was due.
    pub fn prepared(&mut self, failure: Option<FatalError>) -> (persist: Persist)
        requires
            old(self).wf(),
        ensures
            final(self)@ == old(self)@.prepared(failure),
            persist == old(self)@.prepared_persist(failure),
            final(self).wf(),
    {
        match self.phase {
            Phase::Preparing => {
                match failure {
                    Some(error) => {
                        self.phase = Phase::Finished(Outcome::Fatal(error));
                        Persist::Nothing
                    },
                    None => {
                        self.phase = Phase::SigningIn;
                        match self.disposition {
                            Disposition::Restart | Disposition::Switch => self.store.clear(),
                            _ => Persist::Nothing,
                        }
                    },
                }
            },
            _ => Persist::Nothing,
        }
    }

    /// What has to be done next.
    pub fn action(&self) -> (action: Action)
        requires
            self.wf(),
        ensures
            action == self@.next_action(),
    {
        match self.phase {
            Phase::Preparing => Action::Prepare,
            Phase::SigningIn => Action::SignIn,
            Phase::OpeningSong => Action::OpenSong,
            Phase::Configuring => Action::Configure {
                count_in: self.options.count_in,
                transpose: self.options.transpose,
            },
            Phase::Discovering => Action::DiscoverTracks,
            Phase::Attempting => Action::Attempt {
                index: self.index,
                attempt: self.attempt,
                dialog_timeout_secs: dialog_timeout_secs(self.attempt),
            },
            Phase::BackingOff => Action::Wait { secs: retry_delay_secs(self.attempt) },
            Phase::Finished(outcome) => Action::Finish(outcome),
        }
    }

    /// Where the run stands.
    pub fn phase(&self) -> (phase: Phase)
        ensures
            phase == self@.phase,
    {
        self.phase
    }

    /// What the run did with the progress it found.
    pub fn disposition(&self) -> (disposition: Disposition)
        ensures
            disposition == self@.disposition,
    {
        self.disposition
    }

    /// The progress store as it stands.
    pub fn progress(&self) -> (store: &DownloadProgress)
        ensures
            store@ == self@.store,
    {
        &self.store
    }

    /// The name of the track at `index`, where there is one.
    pub fn track_name(&self, index: usize) -> (name: Option<&str>)
        ensures
            match name {
                Some(n) => index < self@.tracks.len() && n@ == self@.tracks[index as int],
                None => index >= self@.tracks.len(),
            },
    {
        if index < self.tracks.len() {
            Some(self.tracks[index].as_str())
        } else {
            None
        }
    }

    /// The tracks that failed after all their attempts, in order.
    pub fn failed_tracks(&self) -> (failed: Vec<String>)
        ensures
            names(failed@) == self@.failed,
    {
        clone_names(&self.failed)
    }

    /// Reports that the user is signed in. The progress is made to belong to
    /// the song of this run and must be saved. Ignored where no sign-in was
    /// due.
    pub fn signed_in(&mut self) -> (persist: Persist)
        requires
            old(self).wf(),
        ensures
            final(self)@ == old(self)@.signed_in(),
            persist == if old(self)@.phase == Phase::SigningIn {
                Persist::Save
            } else {
                Persist::Nothing
            },
            final(self).wf(),
    {
        match self.phase {
            Phase::SigningIn => {
                self.phase = Phase::OpeningSong;
                self.store.set_url(self.url.as_str())
            },
            _ => Persist::Nothing,
        }
    }

    /// Reports what was found on the song page. A page that cannot be
    /// downloaded from ends the run. Ignored where no page was due.
    pub fn page_opened(&mut self, probe: PageProbe)
        requires
            old(self).wf(),
        ensures
            final(self)@ == old(self)@.page_opened(probe),
            final(self).wf(),
    {
        match self.phase {
            Phase::OpeningSong => {
                match probe.check() {
                    Ok(_) => {
                        self.phase = Phase::Configuring;
                    },
                    Err(error) => {
                        self.phase = Phase::Finished(Outcome::Fatal(FatalError::Page(error)));
                    },
                }
            },
            _ => {},
        }
    }

    /// Reports how setting the pitch ended. A pitch that did not converge
    /// ends the run. Ignored where no pitch was due.
    pub fn configured(&mut self, pitch: PitchOutcome)
        requires
            old(self).wf(),
        ensures
            final(self)@ == old(self)@.configured(pitch),
            final(self).wf(),
    {
        match self.phase {
            Phase::Configuring => {
                match pitch {
                    PitchOutcome::Failed => {
                        self.phase = Phase::Finished(
                            Outcome::Fatal(FatalError::PitchNotConverged),
                        );
                    },
                    _ => {
                        self.phase = Phase::Discovering;
                    },
                }
            },
            _ => {},
        }
    }

    /// Reports the track names, in the order of the page. The run goes to
    /// the first track that is not recorded as completed. Ignored where no
    /// discovery was due.
    pub fn tracks_found(&mut self, tracks: Vec<String>) -> (persist: Persist)
        requires
            old(self).wf(),
        ensures
            final(self)@ == old(self)@.tracks_found(names(tracks@)),
            persist == if old(self)@.phase == Phase::Discovering {
                (RunView {
                    tracks: names(tracks@),
                    index: 0,
                    failed: Seq::empty(),
                    ..old(self)@
                }).seek_persist()
            } else {
                Persist::Nothing
            },
            final(self).wf(),
    {
        match self.phase {
            Phase::Discovering => {
                self.tracks = tracks;
                self.index = 0;
                self.failed = Vec::new();
                assert(names(self.failed@) =~= Seq::<Seq<char>>::empty());
                self.settle()
            },
            _ => Persist::Nothing,
        }
    }

    /// Reports how the attempt on the current track ended.
    ///
    /// A track that was fetched is recorded as completed, which must be
    /// saved, and the run goes on to the next track that is not. A failed
    /// attempt is followed by a wait and another attempt while attempts are
    /// left; after the last one the track is listed as failed and the run
    /// goes on. After the last track the run ends: with no failed track the
    /// progress is thrown away, with one it is kept. Ignored where no
    /// attempt was due.
    pub fn attempt_finished(&mut self, succeeded: bool) -> (persist: Persist)
        requires
            old(self).wf(),
        ensures
            final(self)@ == old(self)@.attempt_finished(succeeded),
            persist == old(self)@.attempt_persist(succeeded),
            final(self).wf(),
    {
        match self.phase {
            Phase::Attempting => {
                assert(self@.on_a_track());
                assert(self.index < self.tracks.len());
                if succeeded {
                    let saved = self.store.mark_track_downloaded(self.tracks[self.index].as_str());
                    self.index = self.index + 1;
                    let ended = self.settle();
                    saved.followed_by(ended)
                } else if self.attempt < MAX_ATTEMPTS {
                    self.phase = Phase::BackingOff;
                    Persist::Nothing
                } else {
                    let name = self.tracks[self.index].clone();
                    proof {
                        lemma_names_push(self.failed@, name);
                    }
                    self.failed.push(name);
                    self.index = self.index + 1;
                    self.settle()
                }
            },
            _ => Persist::Nothing,
        }
    }

    /// Reports that the wait after a failed attempt is over: the next
    /// attempt on the same track is due. Ignored where no wait was due.
    pub fn backoff_elapsed(&mut self)
        requires
            old(self).wf(),
        ensures
            final(self)@ == old(self)@.backoff_elapsed(),
            final(self).wf(),
    {
        match self.phase {
            Phase::BackingOff => {
                self.phase = Phase::Attempting;
                self.attempt = self.attempt + 1;
            },
            _ => {},
        }
    }

    /// Goes to the next track that is not recorded as completed, or ends
    /// the run where none is left.
    fn settle(&mut self) -> (persist: Persist)
        requires
            old(self)@.index <= old(self)@.tracks.len(),
            old(self)@.failed.len() <= old(self)@.index,
            old(self)@.store.wf(),
            old(self)@.store.is_same_url(old(self)@.url),
        ensures
            final(self)@ == old(self)@.seek(),
            persist == old(self)@.seek_persist(),
            final(self)@.inv(),
    {
        let ghost start = self@;
        while self.index < self.tracks.len() && self.store.is_track_downloaded(
            self.tracks[self.index].as_str(),
        )
            invariant
                self.index <= self.tracks.len(),
                self@.seek() == start.seek(),
                self@ == (RunView { index: self.index as int, ..start }),
                start.failed.len() <= start.index <= self.index,
            decreases self.tracks.len() - self.index,
        {
            assert(self@.seek() == self@.past_track().seek());
            self.index = self.index + 1;
        }
        if self.index < self.tracks.len() {
            self.phase = Phase::Attempting;
            self.attempt = 1;
            Persist::Nothing
        } else if self.failed.len() == 0 {
            self.phase = Phase::Finished(Outcome::Success);
            self.store.clear()
        } else {
            self.phase = Phase::Finished(Outcome::PartialFailure);
            Persist::Nothing
        }
    }
}

} // verus!
