//! Resources: the documents of the active directory, listed and read by URI.

use vstd::prelude::*;
use crate::config::{loaded_view, Config, ConfigError, ConfigView};
use crate::constants::{
    get_mime_type, is_supported_extension, mime_type_for, mime_type_of, supported_extension,
};
use crate::extractor::{
    create_extractor, extracted_view, extractor_for, lowered_extension, DocumentExtractor,
};
use crate::json::text_view;
use crate::paths::{
    extension_of, join_path, joined_path, path_extension, path_starts_with, path_within,
};
use crate::probe::{
    entries_view, entry_view, listing_entries, DirEntry, DirEntryView, DirectoryListing,
    ResourceProbe,
};
use crate::text::{after, concat2, concat3, concat4, lowercase_of, starts_with, to_lowercase};

verus! {

/// A document that the active directory offers.
#[derive(Debug, PartialEq)]
pub struct Resource {
    /// The document's URI: its extension as the scheme, then its file name.
    pub uri: String,
    /// The document's file name.
    pub name: String,
    pub description: Option<String>,
    pub mime_type: Option<String>,
}

/// What a [`Resource`] holds, as mathematical values.
pub struct ResourceView {
    pub uri: Seq<char>,
    pub name: Seq<char>,
    pub description: Option<Seq<char>>,
    pub mime_type: Option<Seq<char>>,
}

impl View for Resource {
    type V = ResourceView;

    open spec fn view(&self) -> ResourceView {
        ResourceView {
            uri: self.uri@,
            name: self.name@,
            description: text_view(self.description),
            mime_type: text_view(self.mime_type),
        }
    }
}

/// The text of a document, as a resource read hands it out.
#[derive(Debug, PartialEq)]
pub struct ResourceContent {
    pub uri: String,
    pub text: String,
    pub mime_type: Option<String>,
}

/// What a [`ResourceContent`] holds, as mathematical values.
pub struct ResourceContentView {
    pub uri: Seq<char>,
    pub text: Seq<char>,
    pub mime_type: Option<Seq<char>>,
}

impl View for ResourceContent {
    type V = ResourceContentView;

    open spec fn view(&self) -> ResourceContentView {
        ResourceContentView {
            uri: self.uri@,
            text: self.text@,
            mime_type: text_view(self.mime_type),
        }
    }
}

/// Why a resource could not be listed or read.
#[derive(Debug, PartialEq)]
pub enum ResourceError {
    /// The URI, which begins with no supported scheme.
    InvalidScheme(String),
    /// The URI, which names no file behind its scheme.
    EmptyName(String),
    /// The configuration could not be loaded; the reason in words.
    Config(String),
    /// No directory has been made the active one.
    NoActiveDirectory,
    /// The file is not in the active directory.
    NotFound { filename: String, active_directory: String },
    /// The file's path has no canonical form.
    FileCanonicalizeFailed(String),
    /// The active directory's path has no canonical form.
    DirectoryCanonicalizeFailed(String),
    /// The file, which lies outside the active directory.
    TraversalRejected(String),
    /// The active directory, which is not there.
    DirectoryMissing(String),
    /// The active directory, which could not be listed.
    ReadFailed(String),
    /// A child of the active directory could not be read.
    EntryFailed,
    /// The path of a child whose name is no valid text.
    InvalidName(String),
    /// The URI of a document that no extractor reads.
    ExtractorUnavailable(String),
    /// The URI of a document whose text could not be extracted.
    ExtractionFailed(String),
}

/// What a [`ResourceError`] holds, as mathematical values.
pub enum ResourceErrorView {
    InvalidScheme(Seq<char>),
    EmptyName(Seq<char>),
    Config(Seq<char>),
    NoActiveDirectory,
    NotFound { filename: Seq<char>, active_directory: Seq<char> },
    FileCanonicalizeFailed(Seq<char>),
    DirectoryCanonicalizeFailed(Seq<char>),
    TraversalRejected(Seq<char>),
    DirectoryMissing(Seq<char>),
    ReadFailed(Seq<char>),
    EntryFailed,
    InvalidName(Seq<char>),
    ExtractorUnavailable(Seq<char>),
    ExtractionFailed(Seq<char>),
}

impl View for ResourceError {
    type V = ResourceErrorView;

    open spec fn view(&self) -> ResourceErrorView {
        match self {
            ResourceError::InvalidScheme(uri) => ResourceErrorView::InvalidScheme(uri@),
            ResourceError::EmptyName(uri) => ResourceErrorView::EmptyName(uri@),
            ResourceError::Config(reason) => ResourceErrorView::Config(reason@),
            ResourceError::NoActiveDirectory => ResourceErrorView::NoActiveDirectory,
            ResourceError::NotFound { filename, active_directory } => ResourceErrorView::NotFound {
                filename: filename@,
                active_directory: active_directory@,
            },
            ResourceError::FileCanonicalizeFailed(path) => ResourceErrorView::FileCanonicalizeFailed(
                path@,
            ),
            ResourceError::DirectoryCanonicalizeFailed(path) => ResourceErrorView::DirectoryCanonicalizeFailed(
            path@),
            ResourceError::TraversalRejected(filename) => ResourceErrorView::TraversalRejected(
                filename@,
            ),
            ResourceError::DirectoryMissing(path) => ResourceErrorView::DirectoryMissing(path@),
            ResourceError::ReadFailed(path) => ResourceErrorView::ReadFailed(path@),
            ResourceError::EntryFailed => ResourceErrorView::EntryFailed,
            ResourceError::InvalidName(path) => ResourceErrorView::InvalidName(path@),
            ResourceError::ExtractorUnavailable(uri) => ResourceErrorView::ExtractorUnavailable(
                uri@,
            ),
            ResourceError::ExtractionFailed(uri) => ResourceErrorView::ExtractionFailed(uri@),
        }
    }
}

impl ResourceErrorView {
    /// The error in words.
    pub open spec fn message_text(self) -> Seq<char> {
        match self {
            ResourceErrorView::InvalidScheme(uri) => "Invalid URI format. Expected one of: pdf://, got: "@
                + uri,
            ResourceErrorView::EmptyName(uri) => "URI contains no filename: "@ + uri,
            ResourceErrorView::Config(reason) => reason,
            ResourceErrorView::NoActiveDirectory => "No active directory set. Use set_document_directory tool first."@,
            ResourceErrorView::NotFound { filename, active_directory } => "File not found in active directory: "@
                + filename + ". Active directory: "@ + active_directory,
            ResourceErrorView::FileCanonicalizeFailed(path) => "Failed to canonicalize file path: "@
                + path,
            ResourceErrorView::DirectoryCanonicalizeFailed(path) => "Failed to canonicalize directory path: "@
                + path,
            ResourceErrorView::TraversalRejected(filename) => "File is not in active directory (security check failed): "@
                + filename,
            ResourceErrorView::DirectoryMissing(path) => "Active directory does not exist: "@
                + path,
            ResourceErrorView::ReadFailed(path) => "Failed to read active directory: "@ + path,
            ResourceErrorView::EntryFailed => "Failed to read directory entry"@,
            ResourceErrorView::InvalidName(path) => "Invalid filename: "@ + path,
            ResourceErrorView::ExtractorUnavailable(uri) => "Failed to create extractor for resource: "@
                + uri,
            ResourceErrorView::ExtractionFailed(uri) => "Failed to extract text from resource: "@
                + uri,
        }
    }
}

impl ResourceError {
    /// The error in words.
    pub fn message(&self) -> (message: String)
        ensures
            message@ == self@.message_text(),
    {
        match self {
            ResourceError::InvalidScheme(uri) => concat2(
                "Invalid URI format. Expected one of: pdf://, got: ",
                uri.as_str(),
            ),
            ResourceError::EmptyName(uri) => concat2("URI contains no filename: ", uri.as_str()),
            ResourceError::Config(reason) => reason.clone(),
            ResourceError::NoActiveDirectory => "No active directory set. Use set_document_directory tool first.".to_owned(),
            ResourceError::NotFound { filename, active_directory } => concat4(
                "File not found in active directory: ",
                filename.as_str(),
                ". Active directory: ",
                active_directory.as_str(),
            ),
            ResourceError::FileCanonicalizeFailed(path) => concat2(
                "Failed to canonicalize file path: ",
                path.as_str(),
            ),
            ResourceError::DirectoryCanonicalizeFailed(path) => concat2(
                "Failed to canonicalize directory path: ",
                path.as_str(),
            ),
            ResourceError::TraversalRejected(filename) => concat2(
                "File is not in active directory (security check failed): ",
                filename.as_str(),
            ),
            ResourceError::DirectoryMissing(path) => concat2(
                "Active directory does not exist: ",
                path.as_str(),
            ),
            ResourceError::ReadFailed(path) => concat2(
                "Failed to read active directory: ",
                path.as_str(),
            ),
            ResourceError::EntryFailed => "Failed to read directory entry".to_owned(),
            ResourceError::InvalidName(path) => concat2("Invalid filename: ", path.as_str()),
            ResourceError::ExtractorUnavailable(uri) => concat2(
                "Failed to create extractor for resource: ",
                uri.as_str(),
            ),
            ResourceError::ExtractionFailed(uri) => concat2(
                "Failed to extract text from resource: ",
                uri.as_str(),
            ),
        }
    }
}

/// The scheme of the resources that are offered.
pub const RESOURCE_SCHEME: &'static str = "pdf://";

/// The file name in a resource URI: what follows the scheme, which must be
/// there and must be followed by something.
pub open spec fn resource_name(uri: Seq<char>) -> Result<Seq<char>, ResourceErrorView> {
    if !"pdf://"@.is_prefix_of(uri) {
        Err(ResourceErrorView::InvalidScheme(uri))
    } else if uri.len() == "pdf://"@.len() {
        Err(ResourceErrorView::EmptyName(uri))
    } else {
        Ok(uri.subrange("pdf://"@.len() as int, uri.len() as int))
    }
}

/// The view of a text, or of the error in its place.
pub open spec fn named_view(named: Result<String, ResourceError>) -> Result<
    Seq<char>,
    ResourceErrorView,
> {
    match named {
        Ok(text) => Ok(text@),
        Err(error) => Err(error@),
    }
}

/// Takes the file name out of a resource URI.
pub fn parse_resource_uri(uri: &str) -> (name: Result<String, ResourceError>)
    ensures
        named_view(name) == resource_name(uri@),
{
    if !starts_with(uri, RESOURCE_SCHEME) {
        return Err(ResourceError::InvalidScheme(uri.to_owned()));
    }
    let skip = RESOURCE_SCHEME.unicode_len();
    if uri.unicode_len() == skip {
        return Err(ResourceError::EmptyName(uri.to_owned()));
    }
    Ok(after(uri, skip))
}

/// The active directory of a configuration that was loaded, or the reason
/// why there is none.
pub open spec fn active_directory_of(loaded: Result<ConfigView, Seq<char>>) -> Result<
    Seq<char>,
    ResourceErrorView,
> {
    match loaded {
        Err(reason) => Err(ResourceErrorView::Config(reason)),
        Ok(config) => match config.active_directory {
            None => Err(ResourceErrorView::NoActiveDirectory),
            Some(directory) => Ok(directory),
        },
    }
}

/// The active directory of a configuration that was loaded.
pub fn active_directory(loaded: &Result<Config, ConfigError>) -> (directory: Result<
    String,
    ResourceError,
>)
    ensures
        named_view(directory) == active_directory_of(loaded_view(*loaded)),
{
    match loaded {
        Err(error) => Err(ResourceError::Config(error.message())),
        Ok(config) => match &config.active_directory {
            None => Err(ResourceError::NoActiveDirectory),
            Some(directory) => Ok(directory.clone()),
        },
    }
}

/// The path at which the file of a resource is looked for: the resource's
/// name, joined to the active directory.
pub open spec fn candidate_path(uri: Seq<char>, loaded: Result<ConfigView, Seq<char>>) -> Result<
    Seq<char>,
    ResourceErrorView,
> {
    match resource_name(uri) {
        Err(error) => Err(error),
        Ok(name) => match active_directory_of(loaded) {
            Err(error) => Err(error),
            Ok(directory) => Ok(joined_path(directory, name)),
        },
    }
}

/// The path at which the file of a resource is looked for.
pub fn resource_candidate(uri: &str, loaded: &Result<Config, ConfigError>) -> (candidate: Result<
    String,
    ResourceError,
>)
    ensures
        named_view(candidate) == candidate_path(uri@, loaded_view(*loaded)),
{
    let name = parse_resource_uri(uri)?;
    let directory = active_directory(loaded)?;
    Ok(join_path(directory.as_str(), name.as_str()))
}

/// The file that a resource URI stands for: the canonical form of the
/// resource's path, which must exist and lie within the canonical form of the
/// active directory.
pub open spec fn resolved_path(
    uri: Seq<char>,
    loaded: Result<ConfigView, Seq<char>>,
    exists: bool,
    canonical_file: Option<Seq<char>>,
    canonical_directory: Option<Seq<char>>,
) -> Result<Seq<char>, ResourceErrorView> {
    match resource_name(uri) {
        Err(error) => Err(error),
        Ok(name) => match active_directory_of(loaded) {
            Err(error) => Err(error),
            Ok(directory) => if !exists {
                Err(ResourceErrorView::NotFound { filename: name, active_directory: directory })
            } else {
                match canonical_file {
                    None => Err(
                        ResourceErrorView::FileCanonicalizeFailed(joined_path(directory, name)),
                    ),
                    Some(file) => match canonical_directory {
                        None => Err(ResourceErrorView::DirectoryCanonicalizeFailed(directory)),
                        Some(root) => if path_within(file, root) {
                            Ok(file)
                        } else {
                            Err(ResourceErrorView::TraversalRejected(name))
                        },
                    },
                }
            },
        },
    }
}

/// Resolves a resource URI to the file it stands for, given what the file
/// system says about the path that `resource_candidate` makes of it.
pub fn get_resource_path(
    uri: &str,
    loaded: &Result<Config, ConfigError>,
    probe: &ResourceProbe,
) -> (path: Result<String, ResourceError>)
    ensures
        named_view(path) == resolved_path(
            uri@,
            loaded_view(*loaded),
            probe.exists,
            text_view(probe.canonical_file),
            text_view(probe.canonical_directory),
        ),
{
    let name = parse_resource_uri(uri)?;
    let directory = active_directory(loaded)?;
    if !probe.exists {
        return Err(ResourceError::NotFound { filename: name, active_directory: directory });
    }
    let file = match &probe.canonical_file {
        None => {
            return Err(
                ResourceError::FileCanonicalizeFailed(
                    join_path(directory.as_str(), name.as_str()),
                ),
            );
        },
        Some(file) => file,
    };
    let root = match &probe.canonical_directory {
        None => {
            return Err(ResourceError::DirectoryCanonicalizeFailed(directory));
        },
        Some(root) => root,
    };
    if path_starts_with(file.as_str(), root.as_str()) {
        Ok(file.clone())
    } else {
        Err(ResourceError::TraversalRejected(name))
    }
}

/// What one child of the active directory adds to the list: nothing unless
/// it is a file with a supported extension, and then the resource under its
/// name.
pub open spec fn entry_resource(entry: Option<DirEntryView>) -> Result<
    Option<ResourceView>,
    ResourceErrorView,
> {
    match entry {
        None => Err(ResourceErrorView::EntryFailed),
        Some(entry) => if !entry.is_file {
            Ok(None)
        } else {
            match extension_of(entry.path) {
                None => Ok(None),
                Some(extension) => {
                    let lowered = lowercase_of(extension);
                    if !supported_extension(lowered) {
                        Ok(None)
                    } else {
                        match entry.name {
                            None => Err(ResourceErrorView::InvalidName(entry.path)),
                            Some(name) => Ok(
                                Some(
                                    ResourceView {
                                        uri: lowered + "://"@ + name,
                                        name,
                                        description: Some("Document: "@ + name),
                                        mime_type: Some(mime_type_of(lowered)),
                                    },
                                ),
                            ),
                        }
                    }
                },
            }
        },
    }
}

/// The resources among the given children, in the children's order; the
/// first child that cannot be taken fails the list.
pub open spec fn resources_of(entries: Seq<Option<DirEntryView>>) -> Result<
    Seq<ResourceView>,
    ResourceErrorView,
>
    decreases entries.len(),
{
    if entries.len() == 0 {
        Ok(Seq::empty())
    } else {
        match resources_of(entries.drop_last()) {
            Err(error) => Err(error),
            Ok(front) => match entry_resource(entries.last()) {
                Err(error) => Err(error),
                Ok(None) => Ok(front),
                Ok(Some(resource)) => Ok(front.push(resource)),
            },
        }
    }
}

/// The resources that the active directory offers, given what the file
/// system says about it.
pub open spec fn listed_resources(
    loaded: Result<ConfigView, Seq<char>>,
    exists: bool,
    entries: Option<Seq<Option<DirEntryView>>>,
) -> Result<Seq<ResourceView>, ResourceErrorView> {
    match active_directory_of(loaded) {
        Err(error) => Err(error),
        Ok(directory) => if !exists {
            Err(ResourceErrorView::DirectoryMissing(directory))
        } else {
            match entries {
                None => Err(ResourceErrorView::ReadFailed(directory)),
                Some(entries) => resources_of(entries),
            }
        },
    }
}

/// The views of a list of resources.
pub open spec fn resources_view(resources: Seq<Resource>) -> Seq<ResourceView> {
    resources.map_values(|resource: Resource| resource@)
}

/// The view of a list of resources, or of the error in its place.
pub open spec fn listed_view(listed: Result<Vec<Resource>, ResourceError>) -> Result<
    Seq<ResourceView>,
    ResourceErrorView,
> {
    match listed {
        Ok(resources) => Ok(resources_view(resources@)),
        Err(error) => Err(error@),
    }
}

fn resource_of_entry(entry: &Option<DirEntry>) -> (resource: Result<Option<Resource>, ResourceError>)
    ensures
        match resource {
            Ok(Some(resource)) => entry_resource(entry_view(*entry)) == Ok::<
                Option<ResourceView>,
                ResourceErrorView,
            >(Some(resource@)),
            Ok(None) => entry_resource(entry_view(*entry)) == Ok::<
                Option<ResourceView>,
                ResourceErrorView,
            >(None),
            Err(error) => entry_resource(entry_view(*entry)) == Err::<
                Option<ResourceView>,
                ResourceErrorView,
            >(error@),
        },
{
    let entry = match entry {
        None => {
            return Err(ResourceError::EntryFailed);
        },
        Some(entry) => entry,
    };
    if !entry.is_file {
        return Ok(None);
    }
    let extension = match path_extension(entry.path.as_str()) {
        None => {
            return Ok(None);
        },
        Some(extension) => extension,
    };
    let lowered = to_lowercase(extension.as_str());
    if !is_supported_extension(lowered.as_str()) {
        return Ok(None);
    }
    let name = match &entry.name {
        None => {
            return Err(ResourceError::InvalidName(entry.path.clone()));
        },
        Some(name) => name,
    };
    Ok(
        Some(
            Resource {
                uri: concat3(lowered.as_str(), "://", name.as_str()),
                name: name.clone(),
                description: Some(concat2("Document: ", name.as_str())),
                mime_type: Some(mime_type_for(lowered.as_str()).to_owned()),
            },
        ),
    )
}

/// Lists the documents of the active directory, given what the file system
/// says about that directory: its files with a supported extension, in the
/// order in which the file system hands them out.
pub fn list_resources(loaded: &Result<Config, ConfigError>, listing: &DirectoryListing) -> (listed:
    Result<Vec<Resource>, ResourceError>)
    ensures
        listed_view(listed) == listed_resources(
            loaded_view(*loaded),
            listing.exists,
            listing_entries(*listing),
        ),
{
    let directory = active_directory(loaded)?;
    if !listing.exists {
        return Err(ResourceError::DirectoryMissing(directory));
    }
    let entries = match &listing.entries {
        None => {
            return Err(ResourceError::ReadFailed(directory));
        },
        Some(entries) => entries,
    };
    let mut resources: Vec<Resource> = Vec::new();
    let mut i: usize = 0;
    proof {
        assert(entries_view(entries@).take(0) =~= Seq::empty());
        assert(resources_view(resources@) =~= Seq::empty());
    }
    while i < entries.len()
        invariant
            i <= entries.len(),
            active_directory_of(loaded_view(*loaded)) is Ok,
            listing.exists,
            listing.entries == Some(*entries),
            resources_of(entries_view(entries@).take(i as int)) == Ok::<
                Seq<ResourceView>,
                ResourceErrorView,
            >(resources_view(resources@)),
        decreases entries.len() - i,
    {
        let ghost viewed = entries_view(entries@);
        let ghost before = resources_view(resources@);
        proof {
            assert(viewed.take(i as int + 1).drop_last() =~= viewed.take(i as int));
            assert(viewed.take(i as int + 1).last() == entry_view(entries@[i as int]));
        }
        match resource_of_entry(&entries[i]) {
            Err(error) => {
                proof {
                    lemma_resources_fail(viewed, i as int + 1);
                }
                return Err(error);
            },
            Ok(None) => {},
            Ok(Some(resource)) => {
                resources.push(resource);
                proof {
                    assert(resources_view(resources@) =~= before.push(resource@));
                }
            },
        }
        i = i + 1;
    }
    proof {
        assert(entries_view(entries@).take(i as int) =~= entries_view(entries@));
    }
    Ok(resources)
}

/// A list that fails on some of its first children fails in the same way as
/// a whole.
pub proof fn lemma_resources_fail(entries: Seq<Option<DirEntryView>>, n: int)
    requires
        0 <= n <= entries.len(),
        resources_of(entries.take(n)) is Err,
    ensures
        resources_of(entries) == resources_of(entries.take(n)),
    decreases entries.len() - n,
{
    if n < entries.len() {
        assert(entries.take(n + 1).drop_last() =~= entries.take(n));
        lemma_resources_fail(entries, n + 1);
    } else {
        assert(entries.take(n) =~= entries);
    }
}

/// The content that a resource read hands out, given the extension of the
/// file and what the extractor made of the file.
pub open spec fn content_of(
    uri: Seq<char>,
    extension: Option<Seq<char>>,
    extracted: Result<Seq<char>, Seq<char>>,
) -> Result<ResourceContentView, ResourceErrorView> {
    match extracted {
        Err(_) => Err(ResourceErrorView::ExtractionFailed(uri)),
        Ok(text) => Ok(
            ResourceContentView {
                uri,
                text,
                mime_type: match extension {
                    Some(extension) => Some(mime_type_of(lowercase_of(extension))),
                    None => None,
                },
            },
        ),
    }
}

/// The view of a resource's content, or of the error in its place.
pub open spec fn content_view(content: Result<ResourceContent, ResourceError>) -> Result<
    ResourceContentView,
    ResourceErrorView,
> {
    match content {
        Ok(content) => Ok(content@),
        Err(error) => Err(error@),
    }
}

/// Makes the content of a resource out of what the extractor made of the
/// resource's file.
pub fn resource_content(uri: &str, path: &str, extracted: Result<String, String>) -> (content:
    Result<ResourceContent, ResourceError>)
    ensures
        content_view(content) == content_of(uri@, extension_of(path@), extracted_view(extracted)),
{
    match extracted {
        Err(_) => Err(ResourceError::ExtractionFailed(uri.to_owned())),
        Ok(text) => {
            let mime_type = match path_extension(path) {
                Some(extension) => Some(
                    get_mime_type(extension.as_str()).to_owned(),
                ),
                None => None,
            };
            Ok(ResourceContent { uri: uri.to_owned(), text, mime_type })
        },
    }
}

/// Reads the document behind a resource URI: resolves the URI to a file
/// within the active directory, and only then hands the file to the
/// extractor.
pub fn get_resource<E: DocumentExtractor>(
    uri: &str,
    loaded: &Result<Config, ConfigError>,
    probe: &ResourceProbe,
    extractor: &E,
) -> (content: Result<ResourceContent, ResourceError>)
    ensures
        match resolved_path(
            uri@,
            loaded_view(*loaded),
            probe.exists,
            text_view(probe.canonical_file),
            text_view(probe.canonical_directory),
        ) {
            Err(error) => content_view(content) == Err::<ResourceContentView, ResourceErrorView>(
                error,
            ),
            Ok(path) => match extractor_for(path, extension_of(path), lowered_extension(path)) {
                Err(_) => content_view(content) == Err::<ResourceContentView, ResourceErrorView>(
                    ResourceErrorView::ExtractorUnavailable(uri@),
                ),
                Ok(_) => exists|extracted: Result<Seq<char>, Seq<char>>|
                    content_view(content) == content_of(uri@, extension_of(path), extracted),
            },
        },
{
    let path = get_resource_path(uri, loaded, probe)?;
    match create_extractor(path.as_str()) {
        Err(_) => Err(ResourceError::ExtractorUnavailable(uri.to_owned())),
        Ok(_) => {
            let extracted = extractor.extract_text_from_file(path.as_str());
            let ghost outcome = extracted_view(extracted);
            let content = resource_content(uri, path.as_str(), extracted);
            assert(content_view(content) == content_of(uri@, extension_of(path@), outcome));
            content
        },
    }
}

} // verus!
