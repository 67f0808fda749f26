//! The conditions that end a run before any track is fetched.

use crate::download_song::DownloadError;
use vstd::prelude::*;

verus! {

/// Why a run cannot go on. None of these is retried.
#[derive(Clone, Copy, Debug, PartialEq, Eq, Structural)]
pub enum FatalError {
    /// No credentials are stored.
    MissingCredentials,
    /// The page cannot be downloaded from.
    Page(DownloadError),
    /// The pitch did not reach the wanted value within the allowed presses.
    PitchNotConverged,
    /// The home directory, under which downloads land, is unknown.
    NoHomeDirectory,
    /// The directory in which downloads land by default does not exist.
    NoDownloadDirectory,
}

} // verus!
