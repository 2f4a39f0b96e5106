//! Where files are kept: two directories, one written to and one read from.

use vstd::prelude::*;

verus! {

/// One of the two directories of the service, both relative to the working
/// directory of the process.
#[derive(Clone, Copy, Debug, PartialEq, Eq, Structural)]
pub enum Directory {
    /// Where accepted uploads are written.
    Upload,
    /// Where downloads are read from.
    Shared,
}

impl Directory {
    /// The directory's name on disk.
    pub open spec fn spec_path(self) -> Seq<char> {
        match self {
            Directory::Upload => "upload"@,
            Directory::Shared => "shared"@,
        }
    }

    /// The directory's name on disk.
    pub fn path(&self) -> (p: &'static str)
        ensures
            p@ == self.spec_path(),
    {
        match self {
            Directory::Upload => "upload",
            Directory::Shared => "shared",
        }
    }
}

/// A file of the service: a directory and the name of the file in it. The
/// name is the client's, kept as it came.
#[derive(Clone, Debug, PartialEq, Eq)]
pub struct Location {
    pub directory: Directory,
    pub name: String,
}

/// What a `Location` stands for in contracts.
pub struct LocationView {
    pub directory: Directory,
    pub name: Seq<char>,
}

impl View for Location {
    type V = LocationView;

    open spec fn view(&self) -> LocationView {
        LocationView { directory: self.directory, name: self.name@ }
    }
}

impl Location {
    /// The file `name` of the upload directory.
    pub fn uploaded(name: String) -> (location: Location)
        ensures
            location@ == (LocationView { directory: Directory::Upload, name: name@ }),
    {
        Location { directory: Directory::Upload, name }
    }

    /// The file `name` of the shared directory.
    pub fn shared(name: String) -> (location: Location)
        ensures
            location@ == (LocationView { directory: Directory::Shared, name: name@ }),
    {
        Location { directory: Directory::Shared, name }
    }
}

/// The two directories have different names, so no upload is ever read back
/// as a download and no download source is ever overwritten.
pub proof fn directories_are_disjoint()
    ensures
        Directory::Upload.spec_path() != Directory::Shared.spec_path(),
{
    reveal_strlit("upload");
    reveal_strlit("shared");
    assert("upload"@[0] == 'u');
    assert("shared"@[0] == 's');
}

} // verus!
