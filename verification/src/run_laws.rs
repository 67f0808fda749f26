//! What holds of every download run, proved over the mathematical content of
//! runs: which tracks are skipped, which are attempted and how often, and
//! what progress is left behind.

use crate::download::{discards, disposition_of, Action, Disposition, Outcome, Phase, RunView};
use crate::download_progress::{lemma_mark_keeps_wf, Persist, StoreView};
use crate::download_song::{DownloadOptions, PageProbe};
use crate::error::FatalError;
use crate::pitch::PitchOutcome;
use crate::retry::MAX_ATTEMPTS;
use vstd::prelude::*;

verus! {

/// What can be reported to a run.
pub enum RunEvent {
    /// The credentials and the download directory were looked for.
    Prepared(Option<FatalError>),
    /// The user is signed in.
    SignedIn,
    /// The song page was opened and looked at.
    PageOpened(PageProbe),
    /// Count-in and pitch were set.
    Configured(PitchOutcome),
    /// The track names were read.
    TracksFound(Seq<Seq<char>>),
    /// An attempt ended.
    AttemptFinished(bool),
    /// The wait after a failed attempt is over.
    BackoffElapsed,
}

impl RunView {
    /// The run after `event` was reported.
    pub open spec fn after(self, event: RunEvent) -> RunView {
        match event {
            RunEvent::Prepared(failure) => self.prepared(failure),
            RunEvent::SignedIn => self.signed_in(),
            RunEvent::PageOpened(probe) => self.page_opened(probe),
            RunEvent::Configured(pitch) => self.configured(pitch),
            RunEvent::TracksFound(tracks) => self.tracks_found(tracks),
            RunEvent::AttemptFinished(succeeded) => self.attempt_finished(succeeded),
            RunEvent::BackoffElapsed => self.backoff_elapsed(),
        }
    }

    /// The run after each of `events` was reported, first to last.
    pub open spec fn after_all(self, events: Seq<RunEvent>) -> RunView
        decreases events.len(),
    {
        if events.len() == 0 {
            self
        } else {
            self.after(events[0]).after_all(events.skip(1))
        }
    }

    /// What holds of the progress of a run that found `kept` recorded as
    /// completed when it started, for as long as it has not ended in
    /// success: see [`accounted`].
    pub open spec fn keeps_track(self, kept: Seq<Seq<char>>) -> bool {
        &&& self.phase != Phase::Finished(Outcome::Success) ==> accounted(
            self.store,
            self.tracks,
            self.index,
            self.failed,
            kept,
        )
        &&& self.phase == Phase::Preparing && discards(self.disposition) ==> kept.len() == 0
    }
}

/// Whether the track at `position` is recorded as completed or listed as
/// failed.
pub open spec fn dealt_with(
    store: StoreView,
    tracks: Seq<Seq<char>>,
    failed: Seq<Seq<char>>,
    position: int,
) -> bool {
    store.is_track_downloaded(tracks[position]) || failed.contains(tracks[position])
}

/// Whether `track` is one of the first `index` tracks.
pub open spec fn sits_before(tracks: Seq<Seq<char>>, index: int, track: Seq<char>) -> bool {
    exists|j: int| 0 <= j < index && tracks[j] == track
}

/// The tracks of `kept` are recorded as completed; each of the first `index`
/// tracks is recorded as completed or listed as failed; every failed track is
/// one of the first `index` tracks; and where no two tracks share a name, no
/// failed track is recorded as completed.
pub open spec fn accounted(
    store: StoreView,
    tracks: Seq<Seq<char>>,
    index: int,
    failed: Seq<Seq<char>>,
    kept: Seq<Seq<char>>,
) -> bool {
    &&& forall|t: Seq<char>| #[trigger] kept.contains(t) ==> store.is_track_downloaded(t)
    &&& forall|j: int| 0 <= j < index ==> #[trigger] dealt_with(store, tracks, failed, j)
    &&& forall|i: int| 0 <= i < failed.len() ==> sits_before(tracks, index, #[trigger] failed[i])
    &&& tracks.no_duplicates() ==> forall|i: int|
        0 <= i < failed.len() ==> !store.is_track_downloaded(#[trigger] failed[i])
}

/// The tracks whose record a run keeps: those recorded as completed where
/// the run resumes, none where it throws the progress away.
pub open spec fn kept_tracks(force_restart: bool, url: Seq<char>, store: StoreView) -> Seq<
    Seq<char>,
> {
    if discards(disposition_of(force_restart, url, store)) {
        Seq::empty()
    } else {
        store.completed_tracks()
    }
}

/// A run starts in a state that satisfies the invariant of runs and keeps
/// track of the progress that it does not throw away.
pub proof fn lemma_begin(
    url: Seq<char>,
    options: DownloadOptions,
    force_restart: bool,
    store: StoreView,
)
    requires
        store.wf(),
    ensures
        RunView::begin(url, options, force_restart, store).inv(),
        RunView::begin(url, options, force_restart, store).keeps_track(
            kept_tracks(force_restart, url, store),
        ),
{
}

/// Going on to the next track leaves the run within the invariant of runs,
/// at a first attempt or at its end, with the tracks and the failed tracks
/// as they were, and with the progress as it was unless the run ends in
/// success, which it does only where no track has failed.
pub proof fn lemma_seek_inv(run: RunView)
    requires
        0 <= run.index <= run.tracks.len() <= usize::MAX,
        run.failed.len() <= run.index,
        run.store.wf(),
        run.store.is_same_url(run.url),
    ensures
        run.seek().inv(),
        run.seek().index >= run.index,
        run.seek().tracks == run.tracks,
        run.seek().failed == run.failed,
        run.seek().phase == Phase::Attempting ==> run.seek().attempt == 1,
        run.seek().phase == Phase::Attempting || run.seek().phase == Phase::Finished(
            Outcome::Success,
        ) || run.seek().phase == Phase::Finished(Outcome::PartialFailure),
        run.failed.len() > 0 ==> run.seek().phase != Phase::Finished(Outcome::Success),
        run.failed.len() == 0 ==> run.seek().phase != Phase::Finished(Outcome::PartialFailure),
        run.seek().phase != Phase::Finished(Outcome::Success) ==> run.seek().store == run.store,
    decreases run.tracks.len() - run.index,
{
    if run.index < run.tracks.len() && run.store.is_track_downloaded(run.tracks[run.index]) {
        lemma_seek_inv(run.past_track());
    }
}

/// Going on to the next track changes neither the song nor the wishes of
/// the caller.
pub proof fn lemma_seek_keeps_song(run: RunView)
    ensures
        run.seek().url == run.url,
        run.seek().options == run.options,
        run.seek().disposition == run.disposition,
    decreases run.tracks.len() - run.index,
{
    if 0 <= run.index < run.tracks.len() && run.store.is_track_downloaded(run.tracks[run.index]) {
        lemma_seek_keeps_song(run.past_track());
    }
}

/// Whatever is reported to a run, it stays a run for the same song with the
/// same wishes of the caller.
pub proof fn lemma_song_stays(run: RunView, events: Seq<RunEvent>)
    ensures
        run.after_all(events).url == run.url,
        run.after_all(events).options == run.options,
        run.after_all(events).disposition == run.disposition,
    decreases events.len(),
{
    if events.len() > 0 {
        match events[0] {
            RunEvent::TracksFound(tracks) => {
                lemma_seek_keeps_song(RunView { tracks, index: 0, failed: Seq::empty(), ..run });
            },
            RunEvent::AttemptFinished(succeeded) => {
                lemma_seek_keeps_song(run.track_done());
                lemma_seek_keeps_song(run.track_failed());
            },
            _ => {},
        }
        lemma_song_stays(run.after(events[0]), events.skip(1));
    }
}

/// Whatever is reported to a run, it stays within the invariant of runs.
pub proof fn lemma_step_inv(run: RunView, event: RunEvent)
    requires
        run.inv(),
        event matches RunEvent::TracksFound(tracks) ==> tracks.len() <= usize::MAX,
    ensures
        run.after(event).inv(),
{
    match event {
        RunEvent::TracksFound(tracks) => {
            if run.phase == Phase::Discovering {
                lemma_seek_inv(RunView { tracks, index: 0, failed: Seq::empty(), ..run });
            }
        },
        RunEvent::AttemptFinished(succeeded) => {
            if run.phase == Phase::Attempting {
                if succeeded {
                    lemma_mark_keeps_wf(run.store.current(), run.tracks[run.index]);
                    lemma_seek_inv(run.track_done());
                } else if run.attempt >= MAX_ATTEMPTS {
                    lemma_seek_inv(run.track_failed());
                }
            }
        },
        _ => {},
    }
}

/// Going on to the next track that is not recorded as completed keeps the
/// invariant of runs and the progress; the run then attempts a track or has
/// ended, in success where no track has failed.
pub proof fn lemma_seek(run: RunView, kept: Seq<Seq<char>>)
    requires
        0 <= run.index <= run.tracks.len(),
        run.failed.len() <= run.index,
        run.store.wf(),
        run.store.is_same_url(run.url),
        run.tracks.len() <= usize::MAX,
        accounted(run.store, run.tracks, run.index, run.failed, kept),
    ensures
        run.seek().inv(),
        run.seek().keeps_track(kept),
        run.seek().index >= run.index,
        run.seek().tracks == run.tracks,
        run.seek().failed == run.failed,
        run.seek().phase == Phase::Attempting || run.seek().phase == Phase::Finished(
            Outcome::Success,
        ) || run.seek().phase == Phase::Finished(Outcome::PartialFailure),
        run.seek().phase == Phase::Finished(Outcome::Success) <==> run.failed.len() == 0
            && forall|j: int|
            run.index <= j < run.tracks.len() ==> run.store.is_track_downloaded(
                #[trigger] run.tracks[j],
            ),
        run.seek().phase != Phase::Finished(Outcome::Success) ==> run.seek().store == run.store,
    decreases run.tracks.len() - run.index,
{
    if run.index < run.tracks.len() && run.store.is_track_downloaded(run.tracks[run.index]) {
        let next = run.past_track();
        assert forall|j: int| 0 <= j < next.index implies #[trigger] dealt_with(
            next.store,
            next.tracks,
            next.failed,
            j,
        ) by {
            if j < run.index {
                assert(dealt_with(run.store, run.tracks, run.failed, j));
            }
        }
        assert forall|i: int| 0 <= i < next.failed.len() implies sits_before(
            next.tracks,
            next.index,
            #[trigger] next.failed[i],
        ) by {
            assert(sits_before(run.tracks, run.index, run.failed[i]));
            let j = choose|j: int| 0 <= j < run.index && run.tracks[j] == run.failed[i];
            assert(0 <= j < next.index && next.tracks[j] == next.failed[i]);
        }
        lemma_seek(next, kept);
        assert forall|j: int| run.index <= j < run.tracks.len() && run.seek().phase
            == Phase::Finished(Outcome::Success) implies run.store.is_track_downloaded(
            #[trigger] run.tracks[j],
        ) by {
            if j > run.index {
                assert(next.store.is_track_downloaded(next.tracks[j]));
            }
        }
    } else if run.index < run.tracks.len() {
        assert(!run.store.is_track_downloaded(run.tracks[run.index]));
    }
}

/// Whatever is reported to a run, it stays within the invariant of runs and
/// keeps track of its progress.
pub proof fn lemma_step(run: RunView, event: RunEvent, kept: Seq<Seq<char>>)
    requires
        run.inv(),
        run.keeps_track(kept),
        event matches RunEvent::TracksFound(tracks) ==> tracks.len() <= usize::MAX,
    ensures
        run.after(event).inv(),
        run.after(event).keeps_track(kept),
{
    match event {
        RunEvent::Prepared(failure) => {
            if run.phase == Phase::Preparing && failure is None {
                let next = run.prepared(failure);
                assert forall|t: Seq<char>| #[trigger] kept.contains(t) implies next.store.is_track_downloaded(
                    t,
                ) by {
                    if discards(run.disposition) {
                        assert(kept.len() == 0);
                    }
                }
            }
        },
        RunEvent::SignedIn => {
            if run.phase == Phase::SigningIn {
                let next = run.signed_in();
                assert(next.store.completed_tracks() == run.store.completed_tracks());
                assert forall|j: int| 0 <= j < next.index implies #[trigger] dealt_with(
                    next.store,
                    next.tracks,
                    next.failed,
                    j,
                ) by {
                    assert(dealt_with(run.store, run.tracks, run.failed, j));
                }
                assert forall|i: int| 0 <= i < next.failed.len() implies sits_before(
                    next.tracks,
                    next.index,
                    #[trigger] next.failed[i],
                ) by {
                    assert(sits_before(run.tracks, run.index, run.failed[i]));
                }
            }
        },
        RunEvent::PageOpened(probe) => {},
        RunEvent::Configured(pitch) => {},
        RunEvent::TracksFound(tracks) => {
            if run.phase == Phase::Discovering {
                let fresh = RunView { tracks, index: 0, failed: Seq::empty(), ..run };
                lemma_seek(fresh, kept);
            }
        },
        RunEvent::AttemptFinished(succeeded) => {
            if run.phase == Phase::Attempting {
                let track = run.tracks[run.index];
                if succeeded {
                    let done = run.track_done();
                    lemma_mark_keeps_wf(run.store.current(), track);
                    assert forall|j: int| 0 <= j < done.index implies #[trigger] dealt_with(
                        done.store,
                        done.tracks,
                        done.failed,
                        j,
                    ) by {
                        if j < run.index {
                            assert(dealt_with(run.store, run.tracks, run.failed, j));
                        }
                    }
                    assert forall|i: int| 0 <= i < done.failed.len() implies sits_before(
                        done.tracks,
                        done.index,
                        #[trigger] done.failed[i],
                    ) by {
                        assert(sits_before(run.tracks, run.index, run.failed[i]));
                        let j = choose|j: int| 0 <= j < run.index && run.tracks[j] == run.failed[i];
                        assert(0 <= j < done.index && done.tracks[j] == done.failed[i]);
                    }
                    if done.tracks.no_duplicates() {
                        assert forall|i: int| 0 <= i < done.failed.len()
                            implies !done.store.is_track_downloaded(#[trigger] done.failed[i]) by {
                            assert(sits_before(run.tracks, run.index, run.failed[i]));
                            let j = choose|j: int|
                                0 <= j < run.index && run.tracks[j] == run.failed[i];
                            assert(run.tracks[j] != run.tracks[run.index]);
                            assert(!run.store.is_track_downloaded(run.failed[i]));
                        }
                    }
                    lemma_seek(done, kept);
                } else if run.attempt >= MAX_ATTEMPTS {
                    let given_up = run.track_failed();
                    let last = run.failed.len() as int;
                    assert(given_up.failed[last] == track);
                    assert forall|j: int| 0 <= j < given_up.index implies #[trigger] dealt_with(
                        given_up.store,
                        given_up.tracks,
                        given_up.failed,
                        j,
                    ) by {
                        if j < run.index {
                            assert(dealt_with(run.store, run.tracks, run.failed, j));
                            if run.failed.contains(run.tracks[j]) {
                                let i = choose|i: int|
                                    0 <= i < run.failed.len() && run.failed[i] == run.tracks[j];
                                assert(given_up.failed[i] == run.tracks[j]);
                            }
                        }
                    }
                    assert forall|i: int| 0 <= i < given_up.failed.len() implies sits_before(
                        given_up.tracks,
                        given_up.index,
                        #[trigger] given_up.failed[i],
                    ) by {
                        if i < last {
                            assert(sits_before(run.tracks, run.index, run.failed[i]));
                            let j = choose|j: int|
                                0 <= j < run.index && run.tracks[j] == run.failed[i];
                            assert(0 <= j < given_up.index && given_up.tracks[j]
                                == given_up.failed[i]);
                        } else {
                            assert(given_up.tracks[run.index] == given_up.failed[i]);
                        }
                    }
                    if given_up.tracks.no_duplicates() {
                        assert forall|i: int| 0 <= i < given_up.failed.len()
                            implies !given_up.store.is_track_downloaded(
                            #[trigger] given_up.failed[i],
                        ) by {
                            if i < last {
                                assert(!run.store.is_track_downloaded(run.failed[i]));
                            }
                        }
                    }
                    lemma_seek(given_up, kept);
                }
            }
        },
        RunEvent::BackoffElapsed => {},
    }
}

/// Whether each list of track names among `events` is short enough to be
/// held in memory.
pub open spec fn reportable(events: Seq<RunEvent>) -> bool {
    forall|i: int|
        0 <= i < events.len() ==> (#[trigger] events[i] matches RunEvent::TracksFound(tracks)
            ==> tracks.len() <= usize::MAX)
}

/// Whatever is reported to a run, in whatever order, it stays within the
/// invariant of runs and keeps track of its progress.
pub proof fn lemma_steps(run: RunView, events: Seq<RunEvent>, kept: Seq<Seq<char>>)
    requires
        run.inv(),
        run.keeps_track(kept),
        reportable(events),
    ensures
        run.after_all(events).inv(),
        run.after_all(events).keeps_track(kept),
    decreases events.len(),
{
    if events.len() > 0 {
        lemma_step(run, events[0], kept);
        let rest = events.skip(1);
        assert forall|i: int| 0 <= i < rest.len() implies (#[trigger] rest[i] matches RunEvent::TracksFound(
            tracks,
        ) ==> tracks.len() <= usize::MAX) by {
            assert(rest[i] == events[i + 1]);
        }
        lemma_steps(run.after(events[0]), rest, kept);
    }
}

/// A run that has ended stays as it is, whatever is reported to it.
pub proof fn lemma_finished_stays(run: RunView, events: Seq<RunEvent>)
    requires
        run.phase is Finished,
    ensures
        run.after_all(events) == run,
    decreases events.len(),
{
    if events.len() > 0 {
        lemma_finished_stays(run.after(events[0]), events.skip(1));
    }
}

/// The run as it stands when its tracks are about to be discovered, where
/// nothing was missing before.
pub open spec fn ready(
    url: Seq<char>,
    options: DownloadOptions,
    force_restart: bool,
    store: StoreView,
    probe: PageProbe,
    pitch: PitchOutcome,
) -> RunView {
    RunView::begin(url, options, force_restart, store).prepared(None).signed_in().page_opened(
        probe,
    ).configured(pitch)
}

/// A run that is asked to start over begins its tracks with none recorded
/// as completed, whatever was recorded before and for whichever song.
pub proof fn lemma_restart_forgets_progress(
    url: Seq<char>,
    options: DownloadOptions,
    store: StoreView,
    probe: PageProbe,
    pitch: PitchOutcome,
)
    ensures
        RunView::begin(url, options, true, store).disposition == Disposition::Restart,
        RunView::begin(url, options, true, store).prepared(None).store.record is None,
        ready(url, options, true, store, probe, pitch).store.completed_tracks() == Seq::<
            Seq<char>,
        >::empty(),
{
}

/// A run for another song than the one whose progress is recorded begins
/// its tracks with none recorded as completed.
pub proof fn lemma_other_song_forgets_progress(
    url: Seq<char>,
    options: DownloadOptions,
    force_restart: bool,
    store: StoreView,
    probe: PageProbe,
    pitch: PitchOutcome,
)
    requires
        !store.is_same_url(url),
    ensures
        store.completed_tracks().len() > 0 ==> RunView::begin(
            url,
            options,
            force_restart,
            store,
        ).prepared(None).store.record is None,
        ready(url, options, force_restart, store, probe, pitch).store.completed_tracks() == Seq::<
            Seq<char>,
        >::empty(),
{
    let state = ready(url, options, force_restart, store, probe, pitch);
    assert(state.store.completed_tracks() =~= Seq::<Seq<char>>::empty());
}

/// A run for the song whose progress is recorded, not asked to start over,
/// keeps that progress: it begins its tracks with the same tracks recorded
/// as completed.
pub proof fn lemma_same_song_keeps_progress(
    url: Seq<char>,
    options: DownloadOptions,
    store: StoreView,
    probe: PageProbe,
    pitch: PitchOutcome,
)
    requires
        store.is_same_url(url),
    ensures
        RunView::begin(url, options, false, store).disposition == Disposition::Resume,
        ready(url, options, false, store, probe, pitch).store == store,
{
    assert(store.set_url(url).record->0 == store.record->0);
}

/// A resumed run never attempts a track that was recorded as completed, and
/// leaves no other track out: whatever is reported to it, the track that it
/// attempts is not among the recorded ones, and every track before the
/// current one is recorded as completed or listed as failed. At the end of
/// a run with failed tracks that holds of every track.
pub proof fn lemma_resume_skips_completed(
    url: Seq<char>,
    options: DownloadOptions,
    store: StoreView,
    events: Seq<RunEvent>,
)
    requires
        store.wf(),
        store.is_same_url(url),
        reportable(events),
    ensures
        ({
            let run = RunView::begin(url, options, false, store).after_all(events);
            &&& run.on_a_track() ==> !store.is_track_downloaded(run.tracks[run.index])
            &&& run.phase != Phase::Finished(Outcome::Success) ==> forall|j: int|
                0 <= j < run.index ==> #[trigger] dealt_with(run.store, run.tracks, run.failed, j)
            &&& run.phase == Phase::Finished(Outcome::PartialFailure) ==> run.index
                == run.tracks.len()
        }),
{
    let start = RunView::begin(url, options, false, store);
    let kept = kept_tracks(false, url, store);
    lemma_begin(url, options, false, store);
    lemma_steps(start, events, kept);
    let run = start.after_all(events);
    if run.on_a_track() && store.is_track_downloaded(run.tracks[run.index]) {
        assert(kept.contains(run.tracks[run.index]));
    }
}

/// Where a run ends with failed tracks, its progress is kept: a record is
/// persisted for the song of the run, every track of the song is recorded
/// in it as completed or is listed as failed, and where no two tracks share
/// a name, no failed track is recorded as completed.
pub proof fn lemma_partial_failure_keeps_progress(
    url: Seq<char>,
    options: DownloadOptions,
    force_restart: bool,
    store: StoreView,
    events: Seq<RunEvent>,
)
    requires
        store.wf(),
        reportable(events),
    ensures
        ({
            let run = RunView::begin(url, options, force_restart, store).after_all(events);
            run.phase == Phase::Finished(Outcome::PartialFailure) ==> {
                &&& run.store.is_same_url(url)
                &&& run.failed.len() > 0
                &&& forall|j: int|
                    0 <= j < run.tracks.len() ==> #[trigger] dealt_with(
                        run.store,
                        run.tracks,
                        run.failed,
                        j,
                    )
                &&& run.tracks.no_duplicates() ==> forall|i: int|
                    0 <= i < run.failed.len() ==> !run.store.is_track_downloaded(
                        #[trigger] run.failed[i],
                    )
            }
        }),
{
    let start = RunView::begin(url, options, force_restart, store);
    lemma_begin(url, options, force_restart, store);
    lemma_steps(start, events, kept_tracks(force_restart, url, store));
    lemma_song_stays(start, events);
}

/// The last attempt of a run with failed tracks asks nothing of the
/// progress file that would remove it: the file is removed only by the step
/// that ends the run in success or by the start of a run.
pub proof fn lemma_only_success_removes(run: RunView, succeeded: bool)
    requires
        run.inv(),
    ensures
        run.attempt_persist(succeeded) == Persist::Remove
            ==> run.attempt_finished(succeeded).phase == Phase::Finished(Outcome::Success),
{
}

/// A run in which every attempt succeeds ends in success and leaves no
/// record behind: from a first attempt with no failed track so far, as many
/// successes as tracks are left are enough.
pub proof fn lemma_success_clears(run: RunView, successes: nat)
    requires
        run.inv(),
        run.phase == Phase::Attempting,
        run.failed.len() == 0,
        successes >= run.tracks.len() - run.index,
    ensures
        run.after_all(Seq::new(successes, |i: int| RunEvent::AttemptFinished(true))).phase
            == Phase::Finished(Outcome::Success),
        run.after_all(
            Seq::new(successes, |i: int| RunEvent::AttemptFinished(true)),
        ).store.record is None,
    decreases successes,
{
    let events = Seq::new(successes, |i: int| RunEvent::AttemptFinished(true));
    let rest = Seq::new((successes - 1) as nat, |i: int| RunEvent::AttemptFinished(true));
    assert(events.skip(1) =~= rest);
    let next = run.after(events[0]);
    lemma_mark_keeps_wf(run.store.current(), run.tracks[run.index]);
    lemma_seek_inv(run.track_done());
    if next.phase == Phase::Attempting {
        lemma_success_clears(next, (successes - 1) as nat);
    } else {
        lemma_finished_stays(next, rest);
    }
}

/// Every track gets three attempts and no more. From the first attempt on a
/// track, three failures in a row go through a wait of 5 seconds and a wait
/// of 10 seconds, with the download dialog awaited for 60, 90 and 120
/// seconds; after the third failure the track is listed as failed, no wait
/// follows, and the run has left the track behind with the progress
/// untouched.
pub proof fn lemma_three_attempts(run: RunView)
    requires
        run.inv(),
        run.phase == Phase::Attempting,
        run.attempt == 1,
    ensures
        ({
            let first_wait = run.attempt_finished(false);
            let second = first_wait.backoff_elapsed();
            let second_wait = second.attempt_finished(false);
            let third = second_wait.backoff_elapsed();
            let end = third.attempt_finished(false);
            let index = run.index as usize;
            &&& run.next_action() == Action::Attempt { index, attempt: 1, dialog_timeout_secs: 60 }
            &&& first_wait.next_action() == Action::Wait { secs: 5 }
            &&& second.next_action() == Action::Attempt { index, attempt: 2, dialog_timeout_secs: 90 }
            &&& second_wait.next_action() == Action::Wait { secs: 10 }
            &&& third.next_action() == Action::Attempt { index, attempt: 3, dialog_timeout_secs: 120 }
            &&& end.failed == run.failed.push(run.tracks[run.index])
            &&& end.index > run.index
            &&& end.store == run.store
            &&& end.phase == Phase::Attempting || end.phase == Phase::Finished(
                Outcome::PartialFailure,
            )
            &&& end.phase == Phase::Attempting ==> end.attempt == 1
        }),
{
    let third = run.attempt_finished(false).backoff_elapsed().attempt_finished(
        false,
    ).backoff_elapsed();
    let given_up = third.track_failed();
    lemma_seek_inv(given_up);
}

/// A successful attempt ends the work on its track, whichever attempt it
/// was: the track is recorded as completed and the run goes on, to a first
/// attempt on a later track or to its end.
pub proof fn lemma_success_ends_retries(run: RunView)
    requires
        run.inv(),
        run.phase == Phase::Attempting,
    ensures
        ({
            let next = run.attempt_finished(true);
            &&& next.index > run.index
            &&& next.failed == run.failed
            &&& next.phase == Phase::Attempting ==> next.attempt == 1
                && next.store.is_track_downloaded(run.tracks[run.index])
            &&& next.phase == Phase::Attempting || next.phase == Phase::Finished(Outcome::Success)
                || next.phase == Phase::Finished(Outcome::PartialFailure)
        }),
{
    lemma_mark_keeps_wf(run.store.current(), run.tracks[run.index]);
    lemma_seek_inv(run.track_done());
}

/// Whether the run has come to its tracks: it works on one or has gone
/// through them all.
pub open spec fn among_tracks(run: RunView) -> bool {
    run.on_a_track() || run.phase == Phase::Finished(Outcome::Success) || run.phase
        == Phase::Finished(Outcome::PartialFailure)
}

/// A run that has come to its tracks stays among them, whatever is reported
/// to it: from there on nothing ends it but the end of its tracks.
pub proof fn lemma_stays_among_tracks(run: RunView, events: Seq<RunEvent>)
    requires
        run.inv(),
        reportable(events),
        among_tracks(run),
    ensures
        among_tracks(run.after_all(events)),
    decreases events.len(),
{
    if events.len() > 0 {
        let next = run.after(events[0]);
        let rest = events.skip(1);
        lemma_step_inv(run, events[0]);
        if run.phase == Phase::Attempting {
            lemma_mark_keeps_wf(run.store.current(), run.tracks[run.index]);
            lemma_seek_inv(run.track_done());
            lemma_seek_inv(run.track_failed());
        }
        assert forall|i: int| 0 <= i < rest.len() implies (#[trigger] rest[i] matches RunEvent::TracksFound(
            tracks,
        ) ==> tracks.len() <= usize::MAX) by {
            assert(rest[i] == events[i + 1]);
        }
        lemma_stays_among_tracks(next, rest);
    }
}

/// A run that ends for want of something ends before it attempts any track:
/// missing credentials, a missing download directory, a page that cannot be
/// downloaded from and a pitch that does not converge end the run with no
/// attempt made and no track listed as failed.
pub proof fn lemma_fatal_before_any_attempt(run: RunView, events: Seq<RunEvent>)
    requires
        run.inv(),
        reportable(events),
        run.before_tracks() || run.phase matches Phase::Finished(Outcome::Fatal(_)),
        run.after_all(events).phase matches Phase::Finished(Outcome::Fatal(_)),
    ensures
        attempted(run, events) == Set::<Seq<char>>::empty(),
        run.after_all(events).failed == run.failed,
        run.after_all(events).tracks == run.tracks,
    decreases events.len(),
{
    if events.len() > 0 {
        let next = run.after(events[0]);
        let rest = events.skip(1);
        lemma_step_inv(run, events[0]);
        assert forall|i: int| 0 <= i < rest.len() implies (#[trigger] rest[i] matches RunEvent::TracksFound(
            tracks,
        ) ==> tracks.len() <= usize::MAX) by {
            assert(rest[i] == events[i + 1]);
        }
        if among_tracks(next) {
            lemma_stays_among_tracks(next, rest);
        } else {
            match events[0] {
                RunEvent::TracksFound(tracks) => {
                    if run.phase == Phase::Discovering {
                        lemma_seek_inv(RunView { tracks, index: 0, failed: Seq::empty(), ..run });
                    }
                },
                _ => {},
            }
            lemma_fatal_before_any_attempt(next, rest);
        }
    }
}

/// The names of the tracks on which an attempt ended among `events`, when
/// these are reported to `run` one after the other.
pub open spec fn attempted(run: RunView, events: Seq<RunEvent>) -> Set<Seq<char>>
    decreases events.len(),
{
    if events.len() == 0 {
        Set::empty()
    } else {
        let later = attempted(run.after(events[0]), events.skip(1));
        if run.phase == Phase::Attempting && events[0] is AttemptFinished {
            later.insert(run.tracks[run.index])
        } else {
            later
        }
    }
}

/// Whether the run is past its preparation and has not ended before its
/// tracks.
pub open spec fn under_way(run: RunView) -> bool {
    run.phase != Phase::Preparing && !(run.phase matches Phase::Finished(Outcome::Fatal(_)))
}

/// What holds between a run, the tracks `kept` that it found recorded and
/// the tracks `tried` that it has attempted so far: no kept track was
/// attempted; and once the run is under way, every recorded track was kept
/// or attempted, and so was every track before the current one.
pub open spec fn history_inv(run: RunView, kept: Seq<Seq<char>>, tried: Set<Seq<char>>) -> bool {
    &&& forall|t: Seq<char>| #[trigger] tried.contains(t) ==> !kept.contains(t)
    &&& under_way(run) ==> forall|t: Seq<char>| #[trigger]
        run.store.is_track_downloaded(t) ==> kept.contains(t) || tried.contains(t)
    &&& under_way(run) ==> forall|j: int|
        0 <= j < run.index ==> kept.contains(#[trigger] run.tracks[j]) || tried.contains(
            run.tracks[j],
        )
}

/// Going on to the next track that is not recorded as completed passes
/// over tracks that were kept or attempted only.
proof fn lemma_seek_history(run: RunView, kept: Seq<Seq<char>>, tried: Set<Seq<char>>)
    requires
        0 <= run.index <= run.tracks.len(),
        forall|t: Seq<char>| #[trigger]
            run.store.is_track_downloaded(t) ==> kept.contains(t) || tried.contains(t),
        forall|j: int|
            0 <= j < run.index ==> kept.contains(#[trigger] run.tracks[j]) || tried.contains(
                run.tracks[j],
            ),
    ensures
        forall|t: Seq<char>| #[trigger]
            run.seek().store.is_track_downloaded(t) ==> kept.contains(t) || tried.contains(t),
        forall|j: int|
            0 <= j < run.seek().index ==> kept.contains(#[trigger] run.seek().tracks[j])
                || tried.contains(run.seek().tracks[j]),
        run.seek().phase == Phase::Attempting || run.seek().phase == Phase::Finished(
            Outcome::Success,
        ) || run.seek().phase == Phase::Finished(Outcome::PartialFailure),
    decreases run.tracks.len() - run.index,
{
    if run.index < run.tracks.len() && run.store.is_track_downloaded(run.tracks[run.index]) {
        lemma_seek_history(run.past_track(), kept, tried);
    }
}

/// What a step of a run needs to know of its past, see [`lemma_history`].
spec fn step_of_history(
    run: RunView,
    event: RunEvent,
    kept: Seq<Seq<char>>,
    tried: Set<Seq<char>>,
    now: Set<Seq<char>>,
) -> bool {
    &&& run.inv()
    &&& run.keeps_track(kept)
    &&& event matches RunEvent::TracksFound(tracks) ==> tracks.len() <= usize::MAX
    &&& history_inv(run, kept, tried)
    &&& run.phase == Phase::Preparing ==> discards(run.disposition) || kept
        == run.store.completed_tracks()
    &&& now == if run.phase == Phase::Attempting && event is AttemptFinished {
        tried.insert(run.tracks[run.index])
    } else {
        tried
    }
    &&& under_way(run.after(event))
}

/// After a step of a run, every recorded track was kept or attempted.
proof fn lemma_recorded_was_kept_or_tried(
    run: RunView,
    event: RunEvent,
    kept: Seq<Seq<char>>,
    tried: Set<Seq<char>>,
    now: Set<Seq<char>>,
    track: Seq<char>,
)
    requires
        step_of_history(run, event, kept, tried, now),
        run.after(event).store.is_track_downloaded(track),
    ensures
        kept.contains(track) || now.contains(track),
{
    let next = run.after(event);
    match event {
        RunEvent::Prepared(failure) => {
            if run.phase == Phase::Preparing {
                assert(failure is None);
                if discards(run.disposition) {
                    assert(next.store == run.store.clear());
                    assert(!run.store.clear().current().completed_tracks.contains(track));
                } else {
                    assert(next.store == run.store);
                    assert(kept.contains(track));
                }
            }
        },
        RunEvent::SignedIn => {
            if run.phase == Phase::SigningIn {
                assert(run.store.is_track_downloaded(track));
            }
        },
        RunEvent::PageOpened(probe) => {},
        RunEvent::Configured(pitch) => {},
        RunEvent::TracksFound(tracks) => {
            if run.phase == Phase::Discovering {
                lemma_seek_history(
                    RunView { tracks, index: 0, failed: Seq::empty(), ..run },
                    kept,
                    now,
                );
            }
        },
        RunEvent::AttemptFinished(succeeded) => {
            if run.phase == Phase::Attempting {
                if succeeded {
                    lemma_done_history(run, kept, tried, now);
                    lemma_seek_history(run.track_done(), kept, now);
                } else if run.attempt >= MAX_ATTEMPTS {
                    lemma_seek_history(run.track_failed(), kept, now);
                }
            }
        },
        RunEvent::BackoffElapsed => {},
    }
}

/// After a step of a run, every track before the current one was kept or
/// attempted.
proof fn lemma_passed_was_kept_or_tried(
    run: RunView,
    event: RunEvent,
    kept: Seq<Seq<char>>,
    tried: Set<Seq<char>>,
    now: Set<Seq<char>>,
    position: int,
)
    requires
        step_of_history(run, event, kept, tried, now),
        0 <= position < run.after(event).index,
    ensures
        kept.contains(run.after(event).tracks[position]) || now.contains(
            run.after(event).tracks[position],
        ),
{
    match event {
        RunEvent::Prepared(failure) => {},
        RunEvent::SignedIn => {},
        RunEvent::PageOpened(probe) => {},
        RunEvent::Configured(pitch) => {},
        RunEvent::TracksFound(tracks) => {
            if run.phase == Phase::Discovering {
                lemma_seek_history(
                    RunView { tracks, index: 0, failed: Seq::empty(), ..run },
                    kept,
                    now,
                );
            }
        },
        RunEvent::AttemptFinished(succeeded) => {
            if run.phase == Phase::Attempting {
                if succeeded {
                    lemma_done_history(run, kept, tried, now);
                    lemma_seek_history(run.track_done(), kept, now);
                } else if run.attempt >= MAX_ATTEMPTS {
                    let given_up = run.track_failed();
                    assert forall|j: int| 0 <= j < given_up.index implies kept.contains(
                        #[trigger] given_up.tracks[j],
                    ) || now.contains(given_up.tracks[j]) by {
                        if j < run.index {
                            assert(kept.contains(run.tracks[j]) || tried.contains(run.tracks[j]));
                        }
                    }
                    lemma_seek_history(given_up, kept, now);
                }
            }
        },
        RunEvent::BackoffElapsed => {},
    }
}

/// Once an attempt has succeeded, every recorded track was kept or
/// attempted, and so was every track up to the current one.
proof fn lemma_done_history(
    run: RunView,
    kept: Seq<Seq<char>>,
    tried: Set<Seq<char>>,
    now: Set<Seq<char>>,
)
    requires
        run.inv(),
        run.phase == Phase::Attempting,
        history_inv(run, kept, tried),
        now == tried.insert(run.tracks[run.index]),
    ensures
        forall|t: Seq<char>| #[trigger]
            run.track_done().store.is_track_downloaded(t) ==> kept.contains(t) || now.contains(
                t,
            ),
        forall|j: int|
            0 <= j < run.track_done().index ==> kept.contains(
                #[trigger] run.track_done().tracks[j],
            ) || now.contains(run.track_done().tracks[j]),
{
    let track = run.tracks[run.index];
    let done = run.track_done();
    lemma_mark_keeps_wf(run.store.current(), track);
    assert forall|t: Seq<char>| #[trigger] done.store.is_track_downloaded(t) implies kept.contains(
        t,
    ) || now.contains(t) by {
        if t != track {
            assert(run.store.is_track_downloaded(t));
        }
    }
    assert forall|j: int| 0 <= j < done.index implies kept.contains(#[trigger] done.tracks[j])
        || now.contains(done.tracks[j]) by {
        if j < run.index {
            assert(kept.contains(run.tracks[j]) || tried.contains(run.tracks[j]));
        }
    }
}

/// Whatever is reported to a run, the tracks that it attempts are tracks
/// that it did not keep, and the tracks that it leaves behind are tracks
/// that it kept or attempted.
pub proof fn lemma_history(
    run: RunView,
    events: Seq<RunEvent>,
    kept: Seq<Seq<char>>,
    tried: Set<Seq<char>>,
)
    requires
        run.inv(),
        run.keeps_track(kept),
        reportable(events),
        history_inv(run, kept, tried),
        run.phase == Phase::Preparing ==> tried == Set::<Seq<char>>::empty() && (discards(
            run.disposition,
        ) || kept == run.store.completed_tracks()),
    ensures
        history_inv(run.after_all(events), kept, tried.union(attempted(run, events))),
    decreases events.len(),
{
    if events.len() == 0 {
        assert(tried.union(attempted(run, events)) =~= tried);
    } else {
        let event = events[0];
        let rest = events.skip(1);
        let next = run.after(event);
        let now = if run.phase == Phase::Attempting && event is AttemptFinished {
            tried.insert(run.tracks[run.index])
        } else {
            tried
        };
        lemma_step(run, event, kept);
        assert forall|i: int| 0 <= i < rest.len() implies (#[trigger] rest[i] matches RunEvent::TracksFound(
            tracks,
        ) ==> tracks.len() <= usize::MAX) by {
            assert(rest[i] == events[i + 1]);
        }
        assert forall|t: Seq<char>| #[trigger] now.contains(t) implies !kept.contains(t) by {
            if !tried.contains(t) {
                assert(run.phase == Phase::Attempting);
                assert(t == run.tracks[run.index]);
                assert(!run.store.is_track_downloaded(t));
            }
        }
        if under_way(next) {
            assert forall|t: Seq<char>| #[trigger]
                next.store.is_track_downloaded(t) implies kept.contains(t) || now.contains(
                t,
            ) by {
                lemma_recorded_was_kept_or_tried(run, event, kept, tried, now, t);
            }
            assert forall|j: int| 0 <= j < next.index implies kept.contains(
                #[trigger] next.tracks[j],
            ) || now.contains(next.tracks[j]) by {
                lemma_passed_was_kept_or_tried(run, event, kept, tried, now, j);
            }
        }
        if next.phase == Phase::Preparing {
            match event {
                RunEvent::Prepared(failure) => {
                    assert(run.phase == Phase::Preparing);
                },
                RunEvent::SignedIn => {
                    assert(next == run);
                },
                RunEvent::PageOpened(probe) => {
                    assert(next == run);
                },
                RunEvent::Configured(pitch) => {
                    assert(next == run);
                },
                RunEvent::TracksFound(tracks) => {
                    if run.phase == Phase::Discovering {
                        lemma_seek_inv(RunView { tracks, index: 0, failed: Seq::empty(), ..run });
                    }
                    assert(next == run);
                },
                RunEvent::AttemptFinished(succeeded) => {
                    if run.phase == Phase::Attempting {
                        if succeeded {
                            lemma_mark_keeps_wf(run.store.current(), run.tracks[run.index]);
                            lemma_seek_inv(run.track_done());
                        } else if run.attempt >= MAX_ATTEMPTS {
                            lemma_seek_inv(run.track_failed());
                        }
                    }
                    assert(next == run);
                },
                RunEvent::BackoffElapsed => {
                    assert(next == run);
                },
            }
        }
        lemma_history(next, rest, kept, now);
        assert(tried.union(attempted(run, events)) =~= now.union(attempted(next, rest)));
    }
}

/// A run attempts exactly the tracks that it needs: none of the tracks that
/// it found recorded and kept, and, once it has gone through the song,
/// every other track of the song.
pub proof fn lemma_attempts_what_is_missing(
    url: Seq<char>,
    options: DownloadOptions,
    force_restart: bool,
    store: StoreView,
    events: Seq<RunEvent>,
)
    requires
        store.wf(),
        reportable(events),
    ensures
        ({
            let start = RunView::begin(url, options, force_restart, store);
            let end = start.after_all(events);
            let kept = kept_tracks(force_restart, url, store);
            let tried = attempted(start, events);
            &&& forall|t: Seq<char>| kept.contains(t) ==> !tried.contains(t)
            &&& end.phase == Phase::Finished(Outcome::Success) || end.phase == Phase::Finished(
                Outcome::PartialFailure,
            ) ==> forall|j: int|
                0 <= j < end.tracks.len() ==> kept.contains(#[trigger] end.tracks[j])
                    || tried.contains(end.tracks[j])
        }),
{
    let start = RunView::begin(url, options, force_restart, store);
    let kept = kept_tracks(force_restart, url, store);
    lemma_begin(url, options, force_restart, store);
    lemma_history(start, events, kept, Set::empty());
    lemma_steps(start, events, kept);
    assert(Set::<Seq<char>>::empty().union(attempted(start, events)) =~= attempted(start, events));
}

} // verus!
