//! The downloader's decision: fetch a URL, or skip it because its local
//! file already exists. The check for existence and the fetch itself are
//! I/O and live outside the library; this module fixes what the downloader
//! does with the answer.
use vstd::prelude::*;

verus! {

/// What the downloader is to do for one URL.
#[derive(Clone, Copy, Debug, PartialEq, Eq, Structural)]
pub enum DownloadAction {
    /// The local file is already present: make no network request.
    Skip,
    /// No local file of that name exists: fetch the URL and write its body.
    Fetch,
}

/// The downloader's rule: a URL whose local file already exists is skipped,
/// every other URL is fetched.
pub open spec fn download_action_spec(already_exists: bool) -> DownloadAction {
    if already_exists {
        DownloadAction::Skip
    } else {
        DownloadAction::Fetch
    }
}

/// Decide whether one URL must be fetched, given whether a local file under
/// its resolved name already exists.
pub fn plan_download(already_exists: bool) -> (r: DownloadAction)
    ensures
        r == download_action_spec(already_exists),
{
    if already_exists {
        DownloadAction::Skip
    } else {
        DownloadAction::Fetch
    }
}

/// Running the download stage a second time over the same directory is
/// idempotent on the network side: once a URL's file exists, the stage
/// never fetches that URL again.
pub proof fn lemma_existing_file_never_fetched(already_exists: bool)
    requires
        already_exists,
    ensures
        download_action_spec(already_exists) == DownloadAction::Skip,
{
}

} // verus!
