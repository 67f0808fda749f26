//! What is decided on the song page before any track is fetched: whether the
//! page is a song that can be downloaded, whether the count-in box has to be
//! clicked, and how the track names read.

use crate::text::{contains_name, contains_text, has_infix, names};
use vstd::prelude::*;

verus! {

/// How the tracks of a song are to be rendered.
#[derive(Clone, Copy, Debug, Default, PartialEq, Eq, Structural)]
pub struct DownloadOptions {
    /// Whether every track starts with a count-in.
    pub count_in: bool,
    /// By how many semitones every track is transposed.
    pub transpose: i8,
}

/// Why a page cannot be downloaded from.
#[derive(Clone, Copy, Debug, PartialEq, Eq, Structural)]
pub enum DownloadError {
    /// The song is offered for sale, not for download.
    NotPurchased,
    /// The page holds no mixer or no download button.
    NotASongPage,
    /// The site answered with its bot check.
    HumanVerificationRequired,
}

impl DownloadError {
    /// The message shown for the error.
    pub open spec fn message_text(self) -> Seq<char> {
        match self {
            DownloadError::NotPurchased => "This track has not been purchased"@,
            DownloadError::NotASongPage => "This doesn't look like a song page. Check the url."@,
            DownloadError::HumanVerificationRequired =>
                "The headless browser was detected as a bot and is being presented with a 'Verify you are human' step. Try running without --headless."@,
        }
    }

    /// The message shown for the error.
    pub fn message(&self) -> (text: String)
        ensures
            text@ == self.message_text(),
    {
        match self {
            DownloadError::NotPurchased => "This track has not been purchased".to_owned(),
            DownloadError::NotASongPage =>
                "This doesn't look like a song page. Check the url.".to_owned(),
            DownloadError::HumanVerificationRequired =>
                "The headless browser was detected as a bot and is being presented with a 'Verify you are human' step. Try running without --headless.".to_owned(),
        }
    }
}

/// The words in a page title by which the site's bot check is known.
pub const BOT_CHECK_TITLE: &'static str = "Suspicious activity has been detected";

/// Whether a page with this title is the site's bot check.
pub fn is_verify_you_are_human_title(title: &str) -> (is_check: bool)
    ensures
        is_check == has_infix(title@, BOT_CHECK_TITLE@),
{
    contains_text(title, BOT_CHECK_TITLE)
}

/// What was found on the page that the song's address led to.
#[derive(Clone, Copy, Debug, PartialEq, Eq, Structural)]
pub struct PageProbe {
    /// The page holds a mixer.
    pub has_mixer: bool,
    /// The page holds a download button.
    pub has_download_button: bool,
    /// The page title is that of the bot check.
    pub bot_check_title: bool,
    /// The download button is an add-to-cart button.
    pub offers_purchase: bool,
}

impl PageProbe {
    /// Whether the page is a song page: it holds a mixer and a download
    /// button.
    pub open spec fn is_a_song_page(self) -> bool {
        self.has_mixer && self.has_download_button
    }

    /// Why the page cannot be downloaded from, if it cannot.
    pub open spec fn verdict(self) -> Result<(), DownloadError> {
        if !self.is_a_song_page() {
            if self.bot_check_title {
                Err(DownloadError::HumanVerificationRequired)
            } else {
                Err(DownloadError::NotASongPage)
            }
        } else if self.offers_purchase {
            Err(DownloadError::NotPurchased)
        } else {
            Ok(())
        }
    }

    /// Checks that the page is a song page whose song has been purchased.
    /// A page that is no song page is the bot check where its title says so.
    pub fn check(&self) -> (verdict: Result<(), DownloadError>)
        ensures
            verdict == self.verdict(),
    {
        if !(self.has_mixer && self.has_download_button) {
            if self.bot_check_title {
                Err(DownloadError::HumanVerificationRequired)
            } else {
                Err(DownloadError::NotASongPage)
            }
        } else if self.offers_purchase {
            Err(DownloadError::NotPurchased)
        } else {
            Ok(())
        }
    }
}

/// The count-in box is waited for this many seconds.
pub const COUNT_IN_TIMEOUT_SECS: u64 = 15;

/// The page is given this many seconds to settle once its tracks are known.
pub const MIXER_SETTLE_SECS: u64 = 2;

/// The attribute that marks a checked box.
pub const CHECKED_ATTRIBUTE: &'static str = "checked";

/// Whether a list of attributes says that the element is checked.
pub open spec fn checked(attributes: Option<Seq<Seq<char>>>) -> bool {
    attributes matches Some(list) && list.contains(CHECKED_ATTRIBUTE@)
}

/// The names in an optional list of attributes.
pub open spec fn optional_names(attributes: Option<Vec<String>>) -> Option<Seq<Seq<char>>> {
    match attributes {
        Some(list) => Some(names(list@)),
        None => None,
    }
}

/// Whether an element with these attributes is checked. An element without
/// attributes is not.
pub fn is_checked(attributes: &Option<Vec<String>>) -> (is_checked: bool)
    ensures
        is_checked == checked(optional_names(*attributes)),
{
    match attributes {
        Some(list) => contains_name(list, CHECKED_ATTRIBUTE),
        None => false,
    }
}

impl DownloadOptions {
    /// Whether the count-in box has to be clicked: a count-in is wanted and
    /// the box is not checked yet.
    pub fn must_click_count_in(&self, attributes: &Option<Vec<String>>) -> (click: bool)
        ensures
            click == (self.count_in && !checked(optional_names(*attributes))),
    {
        self.count_in && !is_checked(attributes)
    }
}

} // verus!
