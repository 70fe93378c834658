//! What the caller tells the library about the file system.

use vstd::prelude::*;
use crate::json::text_view;

verus! {

/// What the file system says about a path that should be a file.
#[derive(Debug, PartialEq)]
pub struct FileProbe {
    pub exists: bool,
    pub is_file: bool,
}

/// What the file system says about a path that should be a directory.
#[derive(Debug, PartialEq)]
pub struct DirectoryProbe {
    pub exists: bool,
    pub is_dir: bool,
    /// Whether the directory's children can be listed.
    pub readable: bool,
    /// The path in canonical form, where the file system gives one.
    pub canonical: Option<String>,
}

/// One child of a directory, as the file system hands it out.
#[derive(Debug, PartialEq)]
pub struct DirEntry {
    /// The child's name, where it is valid text.
    pub name: Option<String>,
    /// The child's full path.
    pub path: String,
    pub is_file: bool,
}

/// What a [`DirEntry`] holds, as mathematical values.
pub struct DirEntryView {
    pub name: Option<Seq<char>>,
    pub path: Seq<char>,
    pub is_file: bool,
}

impl View for DirEntry {
    type V = DirEntryView;

    open spec fn view(&self) -> DirEntryView {
        DirEntryView { name: text_view(self.name), path: self.path@, is_file: self.is_file }
    }
}

/// What the file system says about a directory and its children. An entry
/// that could not be read stands as `None` in its place.
#[derive(Debug, PartialEq)]
pub struct DirectoryListing {
    pub exists: bool,
    pub is_dir: bool,
    /// The children in the order in which the file system hands them out,
    /// where the directory can be listed.
    pub entries: Option<Vec<Option<DirEntry>>>,
}

/// The view of an entry that may have failed.
pub open spec fn entry_view(entry: Option<DirEntry>) -> Option<DirEntryView> {
    match entry {
        Some(entry) => Some(entry@),
        None => None,
    }
}

/// The views of a directory's entries.
pub open spec fn entries_view(entries: Seq<Option<DirEntry>>) -> Seq<Option<DirEntryView>> {
    entries.map_values(|entry: Option<DirEntry>| entry_view(entry))
}

/// The view of the entries of a listing, where it has some.
pub open spec fn listing_entries(listing: DirectoryListing) -> Option<Seq<Option<DirEntryView>>> {
    match listing.entries {
        Some(entries) => Some(entries_view(entries@)),
        None => None,
    }
}

/// What the file system says about the file behind a resource: whether the
/// path made of the active directory and the resource's name exists, and the
/// canonical forms of that path and of the active directory.
#[derive(Debug, PartialEq)]
pub struct ResourceProbe {
    pub exists: bool,
    pub canonical_file: Option<String>,
    pub canonical_directory: Option<String>,
}

} // verus!
