//! The download of one file: which file a name stands for, and what the
//! client is answered once the service has tried to read it.

use crate::reply::{attachment_reply, Failure, Reply, ReplyView, StorageError};
use crate::storage::{Directory, Location, LocationView};
use vstd::prelude::*;
use vstd::string::*;

verus! {

/// What came of reading a file.
#[derive(Clone, Debug, PartialEq, Eq)]
pub enum ReadOutcome {
    /// The file could not be opened: it is not there, or something else is
    /// in the way. The two are not told apart.
    Unavailable,
    /// The file was opened, and reading it failed.
    Failed,
    /// The file's whole content.
    Content(Vec<u8>),
}

/// What a `ReadOutcome` stands for in contracts.
pub enum ReadOutcomeView {
    Unavailable,
    Failed,
    Content(Seq<u8>),
}

impl View for ReadOutcome {
    type V = ReadOutcomeView;

    open spec fn view(&self) -> ReadOutcomeView {
        match self {
            ReadOutcome::Unavailable => ReadOutcomeView::Unavailable,
            ReadOutcome::Failed => ReadOutcomeView::Failed,
            ReadOutcome::Content(bytes) => ReadOutcomeView::Content(bytes@),
        }
    }
}

/// The file that a download of `name` reads: the one of that name in the
/// shared directory. The name is taken as it is.
pub open spec fn download_source(name: Seq<char>) -> LocationView {
    LocationView { directory: Directory::Shared, name }
}

/// The answer to a download of `name`, given what came of reading the file:
/// its bytes under its name, or the report of what failed.
pub open spec fn download_reply(name: Seq<char>, outcome: ReadOutcomeView) -> ReplyView {
    match outcome {
        ReadOutcomeView::Unavailable => Failure::NotFound.spec_reply(),
        ReadOutcomeView::Failed => Failure::Storage(StorageError::Read).spec_reply(),
        ReadOutcomeView::Content(bytes) => attachment_reply(name, bytes),
    }
}

/// The file that a download of `name` reads.
pub fn source(name: &str) -> (location: Location)
    ensures
        location@ == download_source(name@),
{
    Location::shared(String::from_str(name))
}

/// Answers a download of `name`, given what came of reading its file.
pub fn serve_file(name: &str, outcome: ReadOutcome) -> (reply: Reply)
    ensures
        reply@ == download_reply(name@, outcome@),
{
    match outcome {
        ReadOutcome::Unavailable => Failure::NotFound.reply(),
        ReadOutcome::Failed => Failure::Storage(StorageError::Read).reply(),
        ReadOutcome::Content(bytes) => Reply::attachment(name, bytes),
    }
}

} // verus!
