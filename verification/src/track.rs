//! One attempt to fetch one track: isolate it, ask for the download, wait
//! for the dialog, read the name of the file from its link, close the
//! dialog and wait for the file to land. Any step that fails ends the
//! attempt as failed, except that a dialog without a close button is left
//! as it is.

use crate::completion::{
    optional_entries, Detector, DetectorError, DetectorView, Poll, Sighting,
    DOWNLOAD_COMPLETION_TIMEOUT_MS,
};
use crate::retry::{dialog_timeout, dialog_timeout_secs};
use crate::text::{
    chars_of, last_segment, last_segment_of, optional_string, optional_text, text_of,
};
use vstd::prelude::*;

verus! {

/// The page is given this many milliseconds to settle after a scroll or a
/// click.
pub const SETTLE_MS: u64 = 500;

/// The download dialog is given this many seconds to render.
pub const DIALOG_SETTLE_SECS: u64 = 1;

/// The download is given this many seconds to start once the dialog is
/// closed.
pub const DOWNLOAD_START_SECS: u64 = 4;

/// What `urlencoding::decode` returns for a text: the text with every `%`
/// and the two hexadecimal digits after it replaced by the byte they denote,
/// read as UTF-8; `None` where the bytes are not valid UTF-8.
pub uninterp spec fn percent_decoded(text: Seq<char>) -> Option<Seq<char>>;

/// Decodes a percent-encoded text with `urlencoding::decode`. The result is
/// `None` where the decoded bytes are not valid UTF-8. A text without `%` is
/// returned as it is.
#[verifier::external_body]
fn percent_decode(text: &str) -> (decoded: Option<String>)
    ensures
        optional_string(decoded) == percent_decoded(text@),
        !text@.contains('%') ==> optional_string(decoded) == Some(text@),
{
    match urlencoding::decode(text) {
        Ok(decoded) => Some(decoded.into_owned()),
        Err(_) => None,
    }
}

/// The name of the file that a download link leads to: what follows the
/// last `/` of the link, percent-decoded; `None` where that cannot be
/// decoded. Without a `%` in it, what follows the last `/` is the name.
pub fn filename_from_href(href: &str) -> (filename: Option<String>)
    ensures
        optional_string(filename) == percent_decoded(last_segment(href@)),
        !last_segment(href@).contains('%') ==> optional_string(filename) == Some(
            last_segment(href@),
        ),
{
    let segment = last_segment_of(href);
    percent_decode(segment.as_str())
}

/// A track name as it is read from the page, in JSON, with every escaped
/// line break replaced by a space.
pub open spec fn without_line_breaks(text: Seq<char>) -> Seq<char>
    decreases text.len(),
{
    if text.len() == 0 {
        text
    } else if text.len() >= 2 && text[0] == '\\' && text[1] == 'n' {
        seq![' '] + without_line_breaks(text.skip(2))
    } else {
        seq![text[0]] + without_line_breaks(text.skip(1))
    }
}

/// A text with its double quotes removed.
pub open spec fn without_quotes(text: Seq<char>) -> Seq<char>
    decreases text.len(),
{
    if text.len() == 0 {
        text
    } else if text.last() == '"' {
        without_quotes(text.drop_last())
    } else {
        without_quotes(text.drop_last()).push(text.last())
    }
}

/// The name of a track, given the JSON text of what the page holds for it:
/// escaped line breaks become spaces, double quotes go.
pub open spec fn clean_name(json_text: Seq<char>) -> Seq<char> {
    without_quotes(without_line_breaks(json_text))
}

/// The name of a track, given the JSON text of what the page holds for it:
/// escaped line breaks become spaces, double quotes go.
pub fn clean_track_name(json_text: &str) -> (name: String)
    ensures
        name@ == clean_name(json_text@),
{
    let text = chars_of(json_text);
    let mut spaced: Vec<char> = Vec::new();
    let mut i: usize = 0;
    assert(text@.skip(0) =~= text@);
    assert(spaced@ + without_line_breaks(text@) =~= without_line_breaks(text@));
    while i < text.len()
        invariant
            i <= text.len(),
            spaced@ + without_line_breaks(text@.skip(i as int)) == without_line_breaks(text@),
        decreases text.len() - i,
    {
        let ghost rest = text@.skip(i as int);
        if text[i] == '\\' && i + 1 < text.len() && text[i + 1] == 'n' {
            assert(rest[0] == '\\' && rest[1] == 'n');
            assert(rest.skip(2) =~= text@.skip(i + 2));
            assert(spaced@.push(' ') + without_line_breaks(text@.skip(i + 2)) =~= spaced@
                + without_line_breaks(rest));
            spaced.push(' ');
            i += 2;
        } else {
            assert(rest[0] == text@[i as int]);
            assert(rest.len() >= 2 ==> rest[1] == text@[i + 1]);
            assert(rest.skip(1) =~= text@.skip(i + 1));
            assert(spaced@.push(text@[i as int]) + without_line_breaks(text@.skip(i + 1))
                =~= spaced@ + without_line_breaks(rest));
            spaced.push(text[i]);
            i += 1;
        }
    }
    assert(spaced@ + without_line_breaks(text@.skip(i as int)) =~= spaced@);
    let mut kept: Vec<char> = Vec::new();
    let mut j: usize = 0;
    while j < spaced.len()
        invariant
            j <= spaced.len(),
            kept@ == without_quotes(spaced@.take(j as int)),
        decreases spaced.len() - j,
    {
        assert(spaced@.take(j + 1).drop_last() =~= spaced@.take(j as int));
        if spaced[j] != '"' {
            kept.push(spaced[j]);
        }
        j += 1;
    }
    assert(spaced@.take(j as int) =~= spaced@);
    text_of(&kept)
}

/// The name of a track, given the JSON text of what the page holds for it,
/// if it holds anything: a track for which it holds nothing has the empty
/// name.
pub fn track_name_from_json(json_text: Option<&str>) -> (name: String)
    ensures
        name@ == match json_text {
            Some(text) => clean_name(text@),
            None => Seq::<char>::empty(),
        },
{
    match json_text {
        Some(text) => clean_track_name(text),
        None => String::new(),
    }
}

/// Why an attempt failed.
#[derive(Clone, Copy, Debug, PartialEq, Eq, Structural)]
pub enum AttemptError {
    /// The track could not be isolated.
    Isolation,
    /// The download could not be asked for.
    Trigger,
    /// The download dialog did not appear within so many seconds.
    DialogTimeout { secs: u64 },
    /// The dialog holds no download link.
    NoLink,
    /// The download link has no address.
    NoAddress,
    /// The name of the file cannot be decoded from the address.
    BadFilename,
    /// The dialog could not be closed.
    Dismissal,
    /// The file was not seen to land.
    Transfer(DetectorError),
}

/// Where an attempt stands.
#[derive(Clone, Copy, Debug, PartialEq, Eq, Structural)]
pub enum AttemptPhase {
    /// The track is being isolated.
    Isolating,
    /// The download is being asked for.
    Triggering,
    /// The download dialog is being waited for.
    AwaitingDialog,
    /// The download link is being read.
    ReadingLink,
    /// The dialog is being closed.
    Dismissing,
    /// The file is being waited for.
    AwaitingTransfer,
    /// The attempt succeeded.
    Succeeded,
    /// The attempt failed.
    Failed(AttemptError),
}

/// What has to be done next.
#[derive(Clone, Copy, Debug, PartialEq, Eq, Structural)]
pub enum AttemptAction {
    /// Bring the solo button of the track into view and click it, then call
    /// [`TrackAttempt::isolated`].
    Isolate,
    /// Bring the download button into view and click it, then call
    /// [`TrackAttempt::triggered`].
    Trigger,
    /// Wait up to `timeout_secs` for the download dialog, then call
    /// [`TrackAttempt::dialog_awaited`].
    AwaitDialog { timeout_secs: u64 },
    /// Read the address of the download link, then call
    /// [`TrackAttempt::link_read`].
    ReadLink,
    /// Close the dialog if it has a close button, then call
    /// [`TrackAttempt::dismissed`].
    Dismiss,
    /// Look at the download directory and call
    /// [`TrackAttempt::transfer_observed`] with what it shows; where that
    /// leaves this action standing, look again after the wait it names.
    AwaitTransfer,
    /// Stop: the attempt has ended, in success or not.
    Finish(Option<AttemptError>),
}

/// What was found where the download link is looked for.
pub enum LinkProbe {
    /// There is no link.
    Missing,
    /// There is a link without an address.
    WithoutAddress,
    /// There is a link with this address.
    Address(String),
}

/// How closing the dialog went.
#[derive(Clone, Copy, Debug, PartialEq, Eq, Structural)]
pub enum Dismissal {
    /// The dialog was closed.
    Closed,
    /// The dialog has no close button.
    NoButton,
    /// The close button could not be clicked.
    ClickFailed,
}

/// The mathematical content of an attempt.
pub struct AttemptView {
    /// The number of the attempt, from 1.
    pub attempt: u32,
    /// Where the attempt stands.
    pub phase: AttemptPhase,
    /// The name of the file that is downloaded, once it is known.
    pub filename: Option<Seq<char>>,
}

impl AttemptView {
    /// The attempt at its start.
    pub open spec fn begin(attempt: u32) -> AttemptView {
        AttemptView { attempt, phase: AttemptPhase::Isolating, filename: None }
    }

    /// The attempt in another phase.
    pub open spec fn at(self, phase: AttemptPhase) -> AttemptView {
        AttemptView { phase, ..self }
    }

    /// The attempt after the track was isolated, or could not be.
    pub open spec fn isolated(self, ok: bool) -> AttemptView {
        if self.phase != AttemptPhase::Isolating {
            self
        } else if ok {
            self.at(AttemptPhase::Triggering)
        } else {
            self.at(AttemptPhase::Failed(AttemptError::Isolation))
        }
    }

    /// The attempt after the download was asked for, or could not be.
    pub open spec fn triggered(self, ok: bool) -> AttemptView {
        if self.phase != AttemptPhase::Triggering {
            self
        } else if ok {
            self.at(AttemptPhase::AwaitingDialog)
        } else {
            self.at(AttemptPhase::Failed(AttemptError::Trigger))
        }
    }

    /// The attempt after the download dialog appeared, or did not in time.
    pub open spec fn dialog_awaited(self, appeared: bool) -> AttemptView {
        if self.phase != AttemptPhase::AwaitingDialog {
            self
        } else if appeared {
            self.at(AttemptPhase::ReadingLink)
        } else {
            self.at(
                AttemptPhase::Failed(
                    AttemptError::DialogTimeout { secs: dialog_timeout(self.attempt as int) as u64 },
                ),
            )
        }
    }

    /// The attempt after the name of the file was decoded from the address
    /// of the download link, or could not be.
    pub open spec fn filename_decoded(self, filename: Option<Seq<char>>) -> AttemptView {
        if self.phase != AttemptPhase::ReadingLink {
            self
        } else {
            match filename {
                Some(name) => AttemptView {
                    phase: AttemptPhase::Dismissing,
                    filename: Some(name),
                    ..self
                },
                None => self.at(AttemptPhase::Failed(AttemptError::BadFilename)),
            }
        }
    }

    /// The attempt after the download link was looked for.
    pub open spec fn link_read(self, link: LinkProbeView) -> AttemptView {
        if self.phase != AttemptPhase::ReadingLink {
            self
        } else {
            match link {
                LinkProbeView::Missing => self.at(AttemptPhase::Failed(AttemptError::NoLink)),
                LinkProbeView::WithoutAddress => self.at(
                    AttemptPhase::Failed(AttemptError::NoAddress),
                ),
                LinkProbeView::Address(href) => self.filename_decoded(
                    percent_decoded(last_segment(href)),
                ),
            }
        }
    }

    /// The attempt after the dialog was closed, or was not.
    pub open spec fn dismissed(self, dismissal: Dismissal) -> AttemptView {
        if self.phase != AttemptPhase::Dismissing {
            self
        } else if dismissal == Dismissal::ClickFailed {
            self.at(AttemptPhase::Failed(AttemptError::Dismissal))
        } else {
            self.at(AttemptPhase::AwaitingTransfer)
        }
    }

    /// The detector that waits for the file of the attempt.
    pub open spec fn detector(self) -> DetectorView {
        DetectorView {
            expected_filename: self.filename->0,
            timeout_ms: DOWNLOAD_COMPLETION_TIMEOUT_MS,
        }
    }

    /// The attempt after a look at the download directory, `elapsed_ms`
    /// after the wait for the file began: the attempt succeeds where the
    /// file has landed, fails where the wait has failed, and goes on
    /// waiting otherwise.
    pub open spec fn transfer_observed(self, elapsed_ms: u64, sighting: Sighting) -> AttemptView {
        if self.phase != AttemptPhase::AwaitingTransfer {
            self
        } else {
            match self.detector().decide(elapsed_ms, sighting) {
                Poll::Landed => self.at(AttemptPhase::Succeeded),
                Poll::Failed(error) => self.at(AttemptPhase::Failed(AttemptError::Transfer(error))),
                Poll::Pending { .. } => self,
            }
        }
    }

    /// What has to be done next.
    pub open spec fn next_action(self) -> AttemptAction {
        match self.phase {
            AttemptPhase::Isolating => AttemptAction::Isolate,
            AttemptPhase::Triggering => AttemptAction::Trigger,
            AttemptPhase::AwaitingDialog => AttemptAction::AwaitDialog {
                timeout_secs: dialog_timeout(self.attempt as int) as u64,
            },
            AttemptPhase::ReadingLink => AttemptAction::ReadLink,
            AttemptPhase::Dismissing => AttemptAction::Dismiss,
            AttemptPhase::AwaitingTransfer => AttemptAction::AwaitTransfer,
            AttemptPhase::Succeeded => AttemptAction::Finish(None),
            AttemptPhase::Failed(error) => AttemptAction::Finish(Some(error)),
        }
    }

    /// Whether the attempt is in a state that it can have reached: its
    /// number is at least 1, and the name of the file is known from the
    /// closing of the dialog on.
    pub open spec fn inv(self) -> bool {
        &&& self.attempt >= 1
        &&& self.phase == AttemptPhase::Dismissing || self.phase == AttemptPhase::AwaitingTransfer
            || self.phase == AttemptPhase::Succeeded ==> self.filename is Some
    }
}

/// The mathematical content of what was found where the download link is
/// looked for.
pub enum LinkProbeView {
    Missing,
    WithoutAddress,
    Address(Seq<char>),
}

impl View for LinkProbe {
    type V = LinkProbeView;

    open spec fn view(&self) -> LinkProbeView {
        match self {
            LinkProbe::Missing => LinkProbeView::Missing,
            LinkProbe::WithoutAddress => LinkProbeView::WithoutAddress,
            LinkProbe::Address(href) => LinkProbeView::Address(href@),
        }
    }
}

/// One attempt to fetch one track.
pub struct TrackAttempt {
    attempt: u32,
    phase: AttemptPhase,
    filename: Option<String>,
}

impl View for TrackAttempt {
    type V = AttemptView;

    closed spec fn view(&self) -> AttemptView {
        AttemptView {
            attempt: self.attempt,
            phase: self.phase,
            filename: optional_string(self.filename),
        }
    }
}

impl TrackAttempt {
    /// Starts attempt number `attempt`; attempts are numbered from 1.
    pub fn start(attempt: u32) -> (started: TrackAttempt)
        requires
            attempt >= 1,
        ensures
            started@ == AttemptView::begin(attempt),
            started@.inv(),
    {
        TrackAttempt { attempt, phase: AttemptPhase::Isolating, filename: None }
    }

    /// What has to be done next.
    pub fn action(&self) -> (action: AttemptAction)
        requires
            self@.inv(),
        ensures
            action == self@.next_action(),
    {
        match self.phase {
            AttemptPhase::Isolating => AttemptAction::Isolate,
            AttemptPhase::Triggering => AttemptAction::Trigger,
            AttemptPhase::AwaitingDialog => AttemptAction::AwaitDialog {
                timeout_secs: dialog_timeout_secs(self.attempt),
            },
            AttemptPhase::ReadingLink => AttemptAction::ReadLink,
            AttemptPhase::Dismissing => AttemptAction::Dismiss,
            AttemptPhase::AwaitingTransfer => AttemptAction::AwaitTransfer,
            AttemptPhase::Succeeded => AttemptAction::Finish(None),
            AttemptPhase::Failed(error) => AttemptAction::Finish(Some(error)),
        }
    }

    /// The name of the file that is downloaded, once it is known.
    pub fn filename(&self) -> (filename: Option<&str>)
        ensures
            optional_text(filename) == self@.filename,
    {
        match &self.filename {
            Some(name) => Some(name.as_str()),
            None => None,
        }
    }

    /// Reports whether the track was isolated. Ignored where that was not
    /// due.
    pub fn isolated(&mut self, ok: bool)
        requires
            old(self)@.inv(),
        ensures
            final(self)@ == old(self)@.isolated(ok),
            final(self)@.inv(),
    {
        match self.phase {
            AttemptPhase::Isolating => {
                self.phase = if ok {
                    AttemptPhase::Triggering
                } else {
                    AttemptPhase::Failed(AttemptError::Isolation)
                };
            },
            _ => {},
        }
    }

    /// Reports whether the download was asked for. Ignored where that was
    /// not due.
    pub fn triggered(&mut self, ok: bool)
        requires
            old(self)@.inv(),
        ensures
            final(self)@ == old(self)@.triggered(ok),
            final(self)@.inv(),
    {
        match self.phase {
            AttemptPhase::Triggering => {
                self.phase = if ok {
                    AttemptPhase::AwaitingDialog
                } else {
                    AttemptPhase::Failed(AttemptError::Trigger)
                };
            },
            _ => {},
        }
    }

    /// Reports whether the download dialog appeared in time. Ignored where
    /// no dialog was waited for.
    pub fn dialog_awaited(&mut self, appeared: bool)
        requires
            old(self)@.inv(),
        ensures
            final(self)@ == old(self)@.dialog_awaited(appeared),
            final(self)@.inv(),
    {
        match self.phase {
            AttemptPhase::AwaitingDialog => {
                self.phase = if appeared {
                    AttemptPhase::ReadingLink
                } else {
                    AttemptPhase::Failed(
                        AttemptError::DialogTimeout { secs: dialog_timeout_secs(self.attempt) },
                    )
                };
            },
            _ => {},
        }
    }

    /// Takes the name of the file as decoded from the address of the
    /// download link, `None` where it could not be decoded, which fails the
    /// attempt. Ignored where no link was due.
    pub fn filename_decoded(&mut self, filename: Option<String>)
        requires
            old(self)@.inv(),
        ensures
            final(self)@ == old(self)@.filename_decoded(optional_string(filename)),
            final(self)@.inv(),
    {
        match self.phase {
            AttemptPhase::ReadingLink => {
                match filename {
                    Some(name) => {
                        self.filename = Some(name);
                        self.phase = AttemptPhase::Dismissing;
                    },
                    None => {
                        self.phase = AttemptPhase::Failed(AttemptError::BadFilename);
                    },
                }
            },
            _ => {},
        }
    }

    /// Reports what was found where the download link is looked for. A link
    /// with an address gives the name of the file: what follows the last
    /// `/`, percent-decoded. Anything else fails the attempt. Ignored where
    /// no link was due.
    pub fn link_read(&mut self, link: LinkProbe)
        requires
            old(self)@.inv(),
        ensures
            final(self)@ == old(self)@.link_read(link@),
            final(self)@.inv(),
    {
        match self.phase {
            AttemptPhase::ReadingLink => {
                match link {
                    LinkProbe::Missing => {
                        self.phase = AttemptPhase::Failed(AttemptError::NoLink);
                    },
                    LinkProbe::WithoutAddress => {
                        self.phase = AttemptPhase::Failed(AttemptError::NoAddress);
                    },
                    LinkProbe::Address(href) => {
                        let filename = filename_from_href(href.as_str());
                        self.filename_decoded(filename);
                    },
                }
            },
            _ => {},
        }
    }

    /// Reports how closing the dialog went. A dialog without a close button
    /// is left as it is; a close button that cannot be clicked fails the
    /// attempt. Ignored where no closing was due.
    pub fn dismissed(&mut self, dismissal: Dismissal)
        requires
            old(self)@.inv(),
        ensures
            final(self)@ == old(self)@.dismissed(dismissal),
            final(self)@.inv(),
    {
        match self.phase {
            AttemptPhase::Dismissing => {
                self.phase = match dismissal {
                    Dismissal::ClickFailed => AttemptPhase::Failed(AttemptError::Dismissal),
                    _ => AttemptPhase::AwaitingTransfer,
                };
            },
            _ => {},
        }
    }

    /// Reports a look at the download directory, `elapsed_ms` after the
    /// wait for the file began. `entries` are the names in the directory,
    /// `None` where it could not be read; `artifact_exists` says whether
    /// the file exists.
    ///
    /// The attempt succeeds where the file has landed, fails where the wait
    /// has failed, and goes on waiting otherwise; the result says which, and
    /// after how long to look again. Ignored, with `None` for a result,
    /// where no file was waited for.
    pub fn transfer_observed(
        &mut self,
        elapsed_ms: u64,
        entries: Option<&Vec<String>>,
        artifact_exists: bool,
    ) -> (poll: Option<Poll>)
        requires
            old(self)@.inv(),
        ensures
            final(self)@ == old(self)@.transfer_observed(
                elapsed_ms,
                Sighting { entries: optional_entries(entries), artifact_exists },
            ),
            poll == if old(self)@.phase == AttemptPhase::AwaitingTransfer {
                Some(
                    old(self)@.detector().decide(
                        elapsed_ms,
                        Sighting { entries: optional_entries(entries), artifact_exists },
                    ),
                )
            } else {
                None
            },
            final(self)@.inv(),
    {
        match self.phase {
            AttemptPhase::AwaitingTransfer => {
                let poll = match &self.filename {
                    Some(name) => Detector::new(name.as_str(), DOWNLOAD_COMPLETION_TIMEOUT_MS).poll(
                        elapsed_ms,
                        entries,
                        artifact_exists,
                    ),
                    None => vstd::pervasive::unreached(),
                };
                match poll {
                    Poll::Landed => {
                        self.phase = AttemptPhase::Succeeded;
                    },
                    Poll::Failed(error) => {
                        self.phase = AttemptPhase::Failed(AttemptError::Transfer(error));
                    },
                    Poll::Pending { .. } => {},
                }
                Some(poll)
            },
            _ => None,
        }
    }
}

/// An attempt succeeds only where its file has landed: the look at the
/// download directory that made it succeed came before the time was up,
/// could read the directory, and showed the file of the attempt there and
/// its marker gone.
pub proof fn lemma_success_means_landed(attempt: AttemptView, elapsed_ms: u64, sighting: Sighting)
    requires
        attempt.phase == AttemptPhase::AwaitingTransfer,
        attempt.transfer_observed(elapsed_ms, sighting).phase == AttemptPhase::Succeeded,
    ensures
        elapsed_ms <= DOWNLOAD_COMPLETION_TIMEOUT_MS,
        sighting.artifact_exists,
        sighting.entries is Some,
        !sighting.entries->0.contains(attempt.detector().marker_name()),
{
}

/// An attempt reaches success by no other way than a look at the download
/// directory: whatever else is reported to it, it does not succeed.
pub proof fn lemma_success_only_by_landing(
    attempt: AttemptView,
    ok: bool,
    filename: Option<Seq<char>>,
    link: LinkProbeView,
    dismissal: Dismissal,
)
    requires
        attempt.phase != AttemptPhase::Succeeded,
    ensures
        attempt.isolated(ok).phase != AttemptPhase::Succeeded,
        attempt.triggered(ok).phase != AttemptPhase::Succeeded,
        attempt.dialog_awaited(ok).phase != AttemptPhase::Succeeded,
        attempt.filename_decoded(filename).phase != AttemptPhase::Succeeded,
        attempt.link_read(link).phase != AttemptPhase::Succeeded,
        attempt.dismissed(dismissal).phase != AttemptPhase::Succeeded,
{
}

/// An attempt succeeds only by going through every step: it is past the
/// closing of the dialog, so it knows the name of its file.
pub proof fn lemma_success_knows_filename(attempt: AttemptView)
    requires
        attempt.inv(),
        attempt.phase == AttemptPhase::Succeeded,
    ensures
        attempt.filename is Some,
{
}

} // verus!
