//! The archive-fetch decision: when the bulk dump must actually be
//! downloaded and how each archive entry is classified during extraction.
//! The network and filesystem work itself lives outside the library; it
//! reports the state of the target directory here and performs exactly the
//! action decided.

use vstd::prelude::*;
use vstd::string::StrSliceExecFns;

verus! {

/// What the fetcher does for a given state of the target directory.
#[derive(Debug, Clone, Copy, PartialEq, Eq, Structural)]
pub enum FetchAction {
    /// The directory already holds an extracted dump: return it unchanged,
    /// with no network request.
    AlreadyPopulated,
    /// Download the archive and extract every entry into the directory.
    DownloadAndExtract,
}

/// One step of the fetcher: the action to perform, and whether the directory
/// is populated once that action has completed.
#[derive(Debug, Clone, Copy, PartialEq, Eq, Structural)]
pub struct FetchStep {
    pub action: FetchAction,
    pub populated_after: bool,
}

/// The step decided for a directory state: an existing non-empty directory
/// short-circuits the download; anything else is downloaded and extracted.
/// Either way the directory is populated afterwards.
pub open spec fn fetch_step_spec(populated: bool) -> FetchStep {
    FetchStep {
        action: if populated {
            FetchAction::AlreadyPopulated
        } else {
            FetchAction::DownloadAndExtract
        },
        populated_after: true,
    }
}

/// Decides what the fetcher does. `populated` reports whether the target
/// directory exists and holds at least one entry; no content validation is
/// performed beyond that.
pub fn fetch_step(populated: bool) -> (r: FetchStep)
    ensures
        r == fetch_step_spec(populated),
{
    FetchStep {
        action: if populated {
            FetchAction::AlreadyPopulated
        } else {
            FetchAction::DownloadAndExtract
        },
        populated_after: true,
    }
}

/// Fetching is idempotent: after any completed fetch, a second fetch decides
/// no network request.
pub proof fn lemma_fetch_idempotent(populated: bool)
    ensures
        fetch_step_spec(fetch_step_spec(populated).populated_after).action
            == FetchAction::AlreadyPopulated,
{
}

/// Whether an archive entry names a directory: its name ends in a slash.
pub open spec fn zip_entry_is_dir_spec(name: Seq<char>) -> bool {
    name.len() > 0 && name.last() == '/'
}

/// Classifies one archive entry by its name: a trailing slash marks a
/// directory to create, anything else a file to extract.
pub fn zip_entry_is_dir(name: &str) -> (r: bool)
    ensures
        r == zip_entry_is_dir_spec(name@),
{
    let n = name.unicode_len();
    if n == 0 {
        return false;
    }
    name.get_char(n - 1) == '/'
}

} // verus!
