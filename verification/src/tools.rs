//! The four tools: their arguments, their answers, and what they do given
//! what the file system says.

use vstd::prelude::*;
use crate::config::{loaded_view, Config, ConfigError, ConfigView};
use crate::extractor::{
    create_extractor, extracted_view, extractor_for, lowered_extension, DocumentExtractor,
};
use crate::json::{optional_text_member, text_member, text_view, Json, JsonValue};
use crate::paths::{extension_of, path_extension};
use crate::probe::{
    entries_view, entry_view, listing_entries, DirEntry, DirEntryView, DirectoryListing,
    DirectoryProbe, FileProbe,
};
use crate::text::{concat2, is_before, text_before, texts_view};

verus! {

/// What `set_document_directory` is called with.
#[derive(Debug, PartialEq)]
pub struct SetDocumentDirectoryParams {
    pub directory: String,
}

/// What `extract_text_from_file` is called with.
#[derive(Debug, PartialEq)]
pub struct ExtractTextFromFileParams {
    pub file_path: String,
}

/// What `list_files_in_directory` is called with: a directory, or none for
/// the active one.
#[derive(Debug, PartialEq)]
pub struct ListFilesInDirectoryParams {
    pub directory: Option<String>,
}

/// What `set_document_directory` answers.
#[derive(Debug, PartialEq)]
pub struct SetDocumentDirectoryResult {
    pub message: String,
    pub active_directory: String,
}

/// What `list_document_directories` answers.
#[derive(Debug, PartialEq)]
pub struct ListDocumentDirectoriesResult {
    pub directories: Vec<String>,
    pub active_directory: Option<String>,
}

/// What `extract_text_from_file` answers.
#[derive(Debug, PartialEq)]
pub struct ExtractTextFromFileResult {
    pub text: String,
}

/// One child of a directory.
#[derive(Debug, PartialEq)]
pub struct FileInfo {
    pub name: String,
    pub path: String,
    pub is_file: bool,
    pub extension: Option<String>,
}

/// What `list_files_in_directory` answers.
#[derive(Debug, PartialEq)]
pub struct ListFilesInDirectoryResult {
    pub directory: String,
    pub files: Vec<FileInfo>,
}

/// A string, or `null` where there is none.
pub open spec fn text_or_null(text: Option<Seq<char>>) -> JsonValue {
    match text {
        Some(text) => JsonValue::Text(text),
        None => JsonValue::Null,
    }
}

/// The array of the given strings.
pub open spec fn texts_json(texts: Seq<Seq<char>>) -> JsonValue {
    JsonValue::Array(texts.map_values(|text: Seq<char>| JsonValue::Text(text)))
}

/// A string, or `null` where there is none.
pub fn json_text_or_null(text: &Option<String>) -> (json: Json)
    ensures
        json@ == text_or_null(text_view(*text)),
{
    match text {
        Some(text) => Json::text(text.as_str()),
        None => Json::Null,
    }
}

/// The array of the given strings.
pub fn json_texts(texts: &Vec<String>) -> (json: Json)
    ensures
        json@ == texts_json(texts_view(texts@)),
{
    let mut array = Json::array();
    let mut i: usize = 0;
    proof {
        assert(texts_json(texts_view(texts@.take(0)))->Array_0 =~= Seq::empty());
    }
    while i < texts.len()
        invariant
            i <= texts.len(),
            array@ == texts_json(texts_view(texts@.take(i as int))),
        decreases texts.len() - i,
    {
        array = array.appended(Json::text(texts[i].as_str()));
        proof {
            assert(texts@.take(i as int + 1) =~= texts@.take(i as int).push(texts@[i as int]));
            assert(texts_json(texts_view(texts@.take(i as int + 1)))->Array_0 =~= texts_json(
                texts_view(texts@.take(i as int)),
            )->Array_0.push(JsonValue::Text(texts@[i as int]@)));
        }
        i = i + 1;
    }
    proof {
        assert(texts@.take(i as int) =~= texts@);
    }
    array
}

impl SetDocumentDirectoryParams {
    /// The directory that the arguments name, where they are an object with
    /// a string under `directory`.
    pub open spec fn decoded(arguments: JsonValue) -> Option<Seq<char>> {
        text_member(arguments, "directory"@)
    }

    /// Reads the arguments of a call.
    pub fn from_json(arguments: &Json) -> (params: Option<SetDocumentDirectoryParams>)
        ensures
            match params {
                Some(params) => Self::decoded(arguments@) == Some(params.directory@),
                None => Self::decoded(arguments@).is_none(),
            },
    {
        match arguments.text_member("directory") {
            Some(directory) => Some(SetDocumentDirectoryParams { directory }),
            None => None,
        }
    }
}

impl ExtractTextFromFileParams {
    /// The file that the arguments name, where they are an object with a
    /// string under `file_path`.
    pub open spec fn decoded(arguments: JsonValue) -> Option<Seq<char>> {
        text_member(arguments, "file_path"@)
    }

    /// Reads the arguments of a call.
    pub fn from_json(arguments: &Json) -> (params: Option<ExtractTextFromFileParams>)
        ensures
            match params {
                Some(params) => Self::decoded(arguments@) == Some(params.file_path@),
                None => Self::decoded(arguments@).is_none(),
            },
    {
        match arguments.text_member("file_path") {
            Some(file_path) => Some(ExtractTextFromFileParams { file_path }),
            None => None,
        }
    }
}

impl ListFilesInDirectoryParams {
    /// The directory that the arguments name or leave out, where they are an
    /// object with a string, `null` or nothing under `directory`.
    pub open spec fn decoded(arguments: JsonValue) -> Option<Option<Seq<char>>> {
        optional_text_member(arguments, "directory"@)
    }

    /// Reads the arguments of a call.
    pub fn from_json(arguments: &Json) -> (params: Option<ListFilesInDirectoryParams>)
        ensures
            match params {
                Some(params) => Self::decoded(arguments@) == Some(text_view(params.directory)),
                None => Self::decoded(arguments@).is_none(),
            },
    {
        match arguments.optional_text_member("directory") {
            Some(directory) => Some(ListFilesInDirectoryParams { directory }),
            None => None,
        }
    }
}

impl SetDocumentDirectoryResult {
    /// The answer as a document.
    pub open spec fn document(self) -> JsonValue {
        JsonValue::Object(
            Map::empty().insert("message"@, JsonValue::Text(self.message@)).insert(
                "active_directory"@,
                JsonValue::Text(self.active_directory@),
            ),
        )
    }

    /// The answer as a document.
    pub fn to_json(&self) -> (json: Json)
        ensures
            json@ == self.document(),
    {
        Json::object().with("message", Json::text(self.message.as_str())).with(
            "active_directory",
            Json::text(self.active_directory.as_str()),
        )
    }
}

impl ListDocumentDirectoriesResult {
    /// The answer as a document.
    pub open spec fn document(self) -> JsonValue {
        JsonValue::Object(
            Map::empty().insert("directories"@, texts_json(texts_view(self.directories@))).insert(
                "active_directory"@,
                text_or_null(text_view(self.active_directory)),
            ),
        )
    }

    /// The answer as a document.
    pub fn to_json(&self) -> (json: Json)
        ensures
            json@ == self.document(),
    {
        Json::object().with("directories", json_texts(&self.directories)).with(
            "active_directory",
            json_text_or_null(&self.active_directory),
        )
    }
}

impl ExtractTextFromFileResult {
    /// The answer as a document.
    pub open spec fn document(self) -> JsonValue {
        JsonValue::Object(Map::empty().insert("text"@, JsonValue::Text(self.text@)))
    }

    /// The answer as a document.
    pub fn to_json(&self) -> (json: Json)
        ensures
            json@ == self.document(),
    {
        Json::object().with("text", Json::text(self.text.as_str()))
    }
}

impl FileInfo {
    /// The child as a document.
    pub open spec fn document(self) -> JsonValue {
        JsonValue::Object(
            Map::empty().insert("name"@, JsonValue::Text(self.name@)).insert(
                "path"@,
                JsonValue::Text(self.path@),
            ).insert("is_file"@, JsonValue::Bool(self.is_file)).insert(
                "extension"@,
                text_or_null(text_view(self.extension)),
            ),
        )
    }

    /// The child as a document.
    pub fn to_json(&self) -> (json: Json)
        ensures
            json@ == self.document(),
    {
        Json::object().with("name", Json::text(self.name.as_str())).with(
            "path",
            Json::text(self.path.as_str()),
        ).with("is_file", Json::Bool(self.is_file)).with(
            "extension",
            json_text_or_null(&self.extension),
        )
    }
}

/// The documents of the given children, in their order.
pub open spec fn files_json(files: Seq<FileInfo>) -> JsonValue {
    JsonValue::Array(files.map_values(|file: FileInfo| file.document()))
}

impl ListFilesInDirectoryResult {
    /// The answer as a document.
    pub open spec fn document(self) -> JsonValue {
        JsonValue::Object(
            Map::empty().insert("directory"@, JsonValue::Text(self.directory@)).insert(
                "files"@,
                files_json(self.files@),
            ),
        )
    }

    /// The answer as a document.
    pub fn to_json(&self) -> (json: Json)
        ensures
            json@ == self.document(),
    {
        let mut files = Json::array();
        let mut i: usize = 0;
        proof {
            assert(files_json(self.files@.take(0))->Array_0 =~= Seq::empty());
        }
        while i < self.files.len()
            invariant
                i <= self.files.len(),
                files@ == files_json(self.files@.take(i as int)),
            decreases self.files.len() - i,
        {
            files = files.appended(self.files[i].to_json());
            proof {
                assert(self.files@.take(i as int + 1) =~= self.files@.take(i as int).push(
                    self.files@[i as int],
                ));
                assert(files_json(self.files@.take(i as int + 1))->Array_0 =~= files_json(
                    self.files@.take(i as int),
                )->Array_0.push(self.files@[i as int].document()));
            }
            i = i + 1;
        }
        proof {
            assert(self.files@.take(i as int) =~= self.files@);
        }
        Json::object().with("directory", Json::text(self.directory.as_str())).with("files", files)
    }
}

/// What a [`FileInfo`] holds, as mathematical values.
pub struct FileInfoView {
    pub name: Seq<char>,
    pub path: Seq<char>,
    pub is_file: bool,
    pub extension: Option<Seq<char>>,
}

impl View for FileInfo {
    type V = FileInfoView;

    open spec fn view(&self) -> FileInfoView {
        FileInfoView {
            name: self.name@,
            path: self.path@,
            is_file: self.is_file,
            extension: text_view(self.extension),
        }
    }
}

/// The views of a list of children.
pub open spec fn files_view(files: Seq<FileInfo>) -> Seq<FileInfoView> {
    files.map_values(|file: FileInfo| file@)
}

/// Why a tool could not do its work.
#[derive(Debug, PartialEq)]
pub enum ToolError {
    /// The directory, which is not there.
    DirectoryNotFound(String),
    /// The path, which is there and is no directory.
    NotADirectory(String),
    /// The directory, whose children cannot be listed.
    Unreadable(String),
    /// The path, which has no canonical form.
    CanonicalizeFailed(String),
    /// The configuration could not be loaded or saved; the reason in words.
    Config(String),
    /// The file, which is not there.
    FileNotFound(String),
    /// The path, which is there and is no file.
    NotAFile(String),
    /// The file, which is of no format that an extractor reads.
    UnsupportedFormat(String),
    /// The file, whose text could not be extracted.
    ExtractionFailed(String),
    /// No directory was named, and none is the active one.
    NoActiveDirectory,
    /// The directory, which could not be listed.
    ReadFailed(String),
    /// A child of the directory could not be read.
    EntryFailed,
    /// The path of a child whose name is no valid text.
    InvalidName(String),
}

/// What a [`ToolError`] holds, as mathematical values.
pub enum ToolErrorView {
    DirectoryNotFound(Seq<char>),
    NotADirectory(Seq<char>),
    Unreadable(Seq<char>),
    CanonicalizeFailed(Seq<char>),
    Config(Seq<char>),
    FileNotFound(Seq<char>),
    NotAFile(Seq<char>),
    UnsupportedFormat(Seq<char>),
    ExtractionFailed(Seq<char>),
    NoActiveDirectory,
    ReadFailed(Seq<char>),
    EntryFailed,
    InvalidName(Seq<char>),
}

impl View for ToolError {
    type V = ToolErrorView;

    open spec fn view(&self) -> ToolErrorView {
        match self {
            ToolError::DirectoryNotFound(path) => ToolErrorView::DirectoryNotFound(path@),
            ToolError::NotADirectory(path) => ToolErrorView::NotADirectory(path@),
            ToolError::Unreadable(path) => ToolErrorView::Unreadable(path@),
            ToolError::CanonicalizeFailed(path) => ToolErrorView::CanonicalizeFailed(path@),
            ToolError::Config(reason) => ToolErrorView::Config(reason@),
            ToolError::FileNotFound(path) => ToolErrorView::FileNotFound(path@),
            ToolError::NotAFile(path) => ToolErrorView::NotAFile(path@),
            ToolError::UnsupportedFormat(path) => ToolErrorView::UnsupportedFormat(path@),
            ToolError::ExtractionFailed(path) => ToolErrorView::ExtractionFailed(path@),
            ToolError::NoActiveDirectory => ToolErrorView::NoActiveDirectory,
            ToolError::ReadFailed(path) => ToolErrorView::ReadFailed(path@),
            ToolError::EntryFailed => ToolErrorView::EntryFailed,
            ToolError::InvalidName(path) => ToolErrorView::InvalidName(path@),
        }
    }
}

impl ToolErrorView {
    /// The error in words.
    pub open spec fn message_text(self) -> Seq<char> {
        match self {
            ToolErrorView::DirectoryNotFound(path) => "Directory does not exist: "@ + path,
            ToolErrorView::NotADirectory(path) => "Path is not a directory: "@ + path,
            ToolErrorView::Unreadable(path) => "Directory is not readable: "@ + path,
            ToolErrorView::CanonicalizeFailed(path) => "Failed to canonicalize path: "@ + path,
            ToolErrorView::Config(reason) => reason,
            ToolErrorView::FileNotFound(path) => "File does not exist: "@ + path,
            ToolErrorView::NotAFile(path) => "Path is not a file: "@ + path,
            ToolErrorView::UnsupportedFormat(path) => "Failed to create extractor for file: "@
                + path,
            ToolErrorView::ExtractionFailed(path) => "Failed to extract text from file: "@ + path,
            ToolErrorView::NoActiveDirectory => "No active directory set. Use set_document_directory tool first, or provide a directory parameter."@,
            ToolErrorView::ReadFailed(path) => "Failed to read directory: "@ + path,
            ToolErrorView::EntryFailed => "Failed to read directory entry"@,
            ToolErrorView::InvalidName(path) => "Invalid filename: "@ + path,
        }
    }
}

impl ToolError {
    /// The error in words.
    pub fn message(&self) -> (message: String)
        ensures
            message@ == self@.message_text(),
    {
        match self {
            ToolError::DirectoryNotFound(path) => concat2(
                "Directory does not exist: ",
                path.as_str(),
            ),
            ToolError::NotADirectory(path) => concat2("Path is not a directory: ", path.as_str()),
            ToolError::Unreadable(path) => concat2("Directory is not readable: ", path.as_str()),
            ToolError::CanonicalizeFailed(path) => concat2(
                "Failed to canonicalize path: ",
                path.as_str(),
            ),
            ToolError::Config(reason) => reason.clone(),
            ToolError::FileNotFound(path) => concat2("File does not exist: ", path.as_str()),
            ToolError::NotAFile(path) => concat2("Path is not a file: ", path.as_str()),
            ToolError::UnsupportedFormat(path) => concat2(
                "Failed to create extractor for file: ",
                path.as_str(),
            ),
            ToolError::ExtractionFailed(path) => concat2(
                "Failed to extract text from file: ",
                path.as_str(),
            ),
            ToolError::NoActiveDirectory => "No active directory set. Use set_document_directory tool first, or provide a directory parameter.".to_owned(),
            ToolError::ReadFailed(path) => concat2("Failed to read directory: ", path.as_str()),
            ToolError::EntryFailed => "Failed to read directory entry".to_owned(),
            ToolError::InvalidName(path) => concat2("Invalid filename: ", path.as_str()),
        }
    }
}

/// The list of known directories with `directory` in it: the list itself
/// where it holds the directory, else the list with the directory at its end.
pub open spec fn with_directory(directories: Seq<Seq<char>>, directory: Seq<char>) -> Seq<
    Seq<char>,
> {
    if directories.contains(directory) {
        directories
    } else {
        directories.push(directory)
    }
}

/// What making a directory the active one gives: the directory's canonical
/// path and the configuration to be saved, or the first check that fails.
pub open spec fn directory_set(
    directory: Seq<char>,
    exists: bool,
    is_dir: bool,
    readable: bool,
    canonical: Option<Seq<char>>,
    loaded: Result<ConfigView, Seq<char>>,
) -> Result<(Seq<char>, ConfigView), ToolErrorView> {
    if !exists {
        Err(ToolErrorView::DirectoryNotFound(directory))
    } else if !is_dir {
        Err(ToolErrorView::NotADirectory(directory))
    } else if !readable {
        Err(ToolErrorView::Unreadable(directory))
    } else {
        match loaded {
            Err(reason) => Err(ToolErrorView::Config(reason)),
            Ok(config) => match canonical {
                None => Err(ToolErrorView::CanonicalizeFailed(directory)),
                Some(canonical) => Ok(
                    (
                        canonical,
                        ConfigView {
                            directories: with_directory(config.directories, canonical),
                            active_directory: Some(canonical),
                        },
                    ),
                ),
            },
        }
    }
}

/// Whether a list of texts holds a text.
pub fn contains_text(texts: &Vec<String>, text: &String) -> (found: bool)
    ensures
        found == texts_view(texts@).contains(text@),
{
    let mut i: usize = 0;
    while i < texts.len()
        invariant
            i <= texts.len(),
            forall|j: int| 0 <= j < i ==> texts_view(texts@)[j] != text@,
        decreases texts.len() - i,
    {
        if texts[i] == *text {
            assert(texts_view(texts@)[i as int] == text@);
            return true;
        }
        i = i + 1;
    }
    false
}

/// Makes a directory the active one, given what the file system says about
/// it and what loading the configuration gave. The configuration that comes
/// back is the one to be saved: it knows the directory by its canonical path,
/// once, and has it as the active one.
pub fn set_document_directory(
    params: SetDocumentDirectoryParams,
    probe: &DirectoryProbe,
    loaded: &Result<Config, ConfigError>,
) -> (outcome: Result<(SetDocumentDirectoryResult, Config), ToolError>)
    ensures
        match outcome {
            Ok((result, config)) => directory_set(
                params.directory@,
                probe.exists,
                probe.is_dir,
                probe.readable,
                text_view(probe.canonical),
                loaded_view(*loaded),
            ) == Ok::<(Seq<char>, ConfigView), ToolErrorView>((result.active_directory@, config@))
                && result.message@ == "Directory set as active: "@ + result.active_directory@,
            Err(error) => directory_set(
                params.directory@,
                probe.exists,
                probe.is_dir,
                probe.readable,
                text_view(probe.canonical),
                loaded_view(*loaded),
            ) == Err::<(Seq<char>, ConfigView), ToolErrorView>(error@),
        },
{
    if !probe.exists {
        return Err(ToolError::DirectoryNotFound(params.directory));
    }
    if !probe.is_dir {
        return Err(ToolError::NotADirectory(params.directory));
    }
    if !probe.readable {
        return Err(ToolError::Unreadable(params.directory));
    }
    let config = match loaded {
        Err(error) => {
            return Err(ToolError::Config(error.message()));
        },
        Ok(config) => config,
    };
    let canonical = match &probe.canonical {
        None => {
            return Err(ToolError::CanonicalizeFailed(params.directory));
        },
        Some(canonical) => canonical,
    };
    let mut config = config.clone();
    if !contains_text(&config.directories, canonical) {
        let ghost before = config.directories@;
        config.directories.push(canonical.clone());
        proof {
            assert(texts_view(config.directories@) =~= texts_view(before).push(canonical@));
        }
    }
    config.active_directory = Some(canonical.clone());
    let result = SetDocumentDirectoryResult {
        message: concat2("Directory set as active: ", canonical.as_str()),
        active_directory: canonical.clone(),
    };
    Ok((result, config))
}

/// The known directories and the active one of a configuration that was
/// loaded.
pub fn list_document_directories(loaded: &Result<Config, ConfigError>) -> (outcome: Result<
    ListDocumentDirectoriesResult,
    ToolError,
>)
    ensures
        match outcome {
            Ok(result) => loaded_view(*loaded) == Ok::<ConfigView, Seq<char>>(
                ConfigView {
                    directories: texts_view(result.directories@),
                    active_directory: text_view(result.active_directory),
                },
            ),
            Err(error) => loaded_view(*loaded) == Err::<ConfigView, Seq<char>>(
                error@.message_text(),
            ) && error is Config,
        },
{
    match loaded {
        Err(error) => Err(ToolError::Config(error.message())),
        Ok(config) => {
            let copy = config.clone();
            Ok(
                ListDocumentDirectoriesResult {
                    directories: copy.directories,
                    active_directory: copy.active_directory,
                },
            )
        },
    }
}

/// What a text extraction hands out, given what the extractor made of the
/// file.
pub open spec fn extraction_of(path: Seq<char>, extracted: Result<Seq<char>, Seq<char>>) -> Result<
    Seq<char>,
    ToolErrorView,
> {
    match extracted {
        Ok(text) => Ok(text),
        Err(_) => Err(ToolErrorView::ExtractionFailed(path)),
    }
}

/// The view of an extracted text, or of the error in its place.
pub open spec fn extraction_view(outcome: Result<ExtractTextFromFileResult, ToolError>) -> Result<
    Seq<char>,
    ToolErrorView,
> {
    match outcome {
        Ok(result) => Ok(result.text@),
        Err(error) => Err(error@),
    }
}

/// Makes the answer of a text extraction out of what the extractor made of
/// the file.
pub fn extraction_result(path: &str, extracted: Result<String, String>) -> (outcome: Result<
    ExtractTextFromFileResult,
    ToolError,
>)
    ensures
        extraction_view(outcome) == extraction_of(
            path@,
            extracted_view(extracted),
        ),
{
    match extracted {
        Ok(text) => Ok(ExtractTextFromFileResult { text }),
        Err(_) => Err(ToolError::ExtractionFailed(path.to_owned())),
    }
}

/// Extracts the text of a file, given what the file system says about the
/// path: the file must be there, be a file and be of a format that an
/// extractor reads, and only then is it handed to the extractor. The file may
/// lie anywhere.
pub fn extract_text_from_file<E: DocumentExtractor>(
    params: ExtractTextFromFileParams,
    probe: &FileProbe,
    extractor: &E,
) -> (outcome: Result<ExtractTextFromFileResult, ToolError>)
    ensures
        !probe.exists ==> extraction_view(outcome) == Err::<Seq<char>, ToolErrorView>(
            ToolErrorView::FileNotFound(params.file_path@),
        ),
        probe.exists && !probe.is_file ==> extraction_view(outcome) == Err::<
            Seq<char>,
            ToolErrorView,
        >(ToolErrorView::NotAFile(params.file_path@)),
        probe.exists && probe.is_file ==> match extractor_for(
            params.file_path@,
            extension_of(params.file_path@),
            lowered_extension(params.file_path@),
        ) {
            Err(_) => extraction_view(outcome) == Err::<Seq<char>, ToolErrorView>(
                ToolErrorView::UnsupportedFormat(params.file_path@),
            ),
            Ok(_) => exists|extracted: Result<Seq<char>, Seq<char>>|
                extraction_view(outcome) == extraction_of(params.file_path@, extracted),
        },
{
    if !probe.exists {
        return Err(ToolError::FileNotFound(params.file_path));
    }
    if !probe.is_file {
        return Err(ToolError::NotAFile(params.file_path));
    }
    match create_extractor(params.file_path.as_str()) {
        Err(_) => Err(ToolError::UnsupportedFormat(params.file_path)),
        Ok(_) => {
            let extracted = extractor.extract_text_from_file(params.file_path.as_str());
            let ghost seen = extracted_view(extracted);
            let outcome = extraction_result(params.file_path.as_str(), extracted);
            assert(extraction_view(outcome) == extraction_of(params.file_path@, seen));
            outcome
        },
    }
}

/// The sorted list with one child more: the child stands behind the last
/// one whose name does not come after its own.
pub open spec fn inserted(sorted: Seq<FileInfoView>, file: FileInfoView) -> Seq<FileInfoView>
    decreases sorted.len(),
{
    if sorted.len() == 0 {
        seq![file]
    } else if text_before(file.name, sorted.last().name) {
        inserted(sorted.drop_last(), file).push(sorted.last())
    } else {
        sorted.push(file)
    }
}

/// The children in the order of their names; children of one name keep the
/// order in which they came.
pub open spec fn sorted_by_name(files: Seq<FileInfoView>) -> Seq<FileInfoView>
    decreases files.len(),
{
    if files.len() == 0 {
        Seq::empty()
    } else {
        inserted(sorted_by_name(files.drop_last()), files.last())
    }
}

/// Where a child goes into a sorted list: before the children whose names
/// come after its own, and behind the others.
pub proof fn lemma_inserted_at(sorted: Seq<FileInfoView>, file: FileInfoView, at: int)
    requires
        0 <= at <= sorted.len(),
        forall|k: int| at <= k < sorted.len() ==> text_before(file.name, (#[trigger] sorted[k]).name),
        at == 0 || !text_before(file.name, sorted[at - 1].name),
    ensures
        inserted(sorted, file) == sorted.insert(at, file),
    decreases sorted.len(),
{
    if sorted.len() == 0 {
        assert(sorted.insert(at, file) =~= seq![file]);
    } else if at == sorted.len() {
        assert(sorted.insert(at, file) =~= sorted.push(file));
    } else {
        let front = sorted.drop_last();
        assert(text_before(file.name, sorted[sorted.len() - 1].name));
        assert forall|k: int| at <= k < front.len() implies text_before(
            file.name,
            (#[trigger] front[k]).name,
        ) by {
            assert(text_before(file.name, sorted[k].name));
        }
        lemma_inserted_at(front, file, at);
        assert(sorted.insert(at, file) =~= front.insert(at, file).push(sorted.last()));
    }
}

/// Puts a child into a list that is in the order of its names.
pub fn insert_by_name(files: &mut Vec<FileInfo>, file: FileInfo)
    ensures
        files_view(final(files)@) == inserted(files_view(old(files)@), file@),
{
    let mut at: usize = files.len();
    while at > 0 && is_before(file.name.as_str(), files[at - 1].name.as_str())
        invariant
            at <= files.len(),
            *files == *old(files),
            forall|k: int|
                at <= k < files.len() ==> text_before(
                    file.name@,
                    (#[trigger] files_view(files@)[k]).name,
                ),
        decreases at,
    {
        at = at - 1;
    }
    let ghost before = files_view(files@);
    let ghost added = file@;
    proof {
        lemma_inserted_at(before, added, at as int);
    }
    files.insert(at, file);
    proof {
        assert(files_view(files@) =~= before.insert(at as int, added));
    }
}

/// What one child adds to a listing.
pub open spec fn entry_file(entry: Option<DirEntryView>) -> Result<FileInfoView, ToolErrorView> {
    match entry {
        None => Err(ToolErrorView::EntryFailed),
        Some(entry) => match entry.name {
            None => Err(ToolErrorView::InvalidName(entry.path)),
            Some(name) => Ok(
                FileInfoView {
                    name,
                    path: entry.path,
                    is_file: entry.is_file,
                    extension: extension_of(entry.path),
                },
            ),
        },
    }
}

/// The children of a directory, in the order in which they came; the first
/// child that cannot be taken fails the listing.
pub open spec fn files_of(entries: Seq<Option<DirEntryView>>) -> Result<
    Seq<FileInfoView>,
    ToolErrorView,
>
    decreases entries.len(),
{
    if entries.len() == 0 {
        Ok(Seq::empty())
    } else {
        match files_of(entries.drop_last()) {
            Err(error) => Err(error),
            Ok(front) => match entry_file(entries.last()) {
                Err(error) => Err(error),
                Ok(file) => Ok(front.push(file)),
            },
        }
    }
}

/// A listing that fails on some of its first children fails in the same way
/// as a whole.
pub proof fn lemma_files_fail(entries: Seq<Option<DirEntryView>>, n: int)
    requires
        0 <= n <= entries.len(),
        files_of(entries.take(n)) is Err,
    ensures
        files_of(entries) == files_of(entries.take(n)),
    decreases entries.len() - n,
{
    if n < entries.len() {
        assert(entries.take(n + 1).drop_last() =~= entries.take(n));
        lemma_files_fail(entries, n + 1);
    } else {
        assert(entries.take(n) =~= entries);
    }
}

/// The directory that a listing is about: the one that was asked for, or
/// else the active one.
pub open spec fn listing_directory_of(
    requested: Option<Seq<char>>,
    loaded: Result<ConfigView, Seq<char>>,
) -> Result<Seq<char>, ToolErrorView> {
    match requested {
        Some(directory) => Ok(directory),
        None => match loaded {
            Err(reason) => Err(ToolErrorView::Config(reason)),
            Ok(config) => match config.active_directory {
                Some(directory) => Ok(directory),
                None => Err(ToolErrorView::NoActiveDirectory),
            },
        },
    }
}

/// The view of a directory's path, or of the error in its place.
pub open spec fn directory_view(directory: Result<String, ToolError>) -> Result<
    Seq<char>,
    ToolErrorView,
> {
    match directory {
        Ok(directory) => Ok(directory@),
        Err(error) => Err(error@),
    }
}

/// The directory that a listing is about. The configuration is consulted
/// only where no directory was asked for.
pub fn listing_directory(
    params: &ListFilesInDirectoryParams,
    loaded: &Result<Config, ConfigError>,
) -> (directory: Result<String, ToolError>)
    ensures
        directory_view(directory) == listing_directory_of(
            text_view(params.directory),
            loaded_view(*loaded),
        ),
{
    match &params.directory {
        Some(directory) => Ok(directory.clone()),
        None => match loaded {
            Err(error) => Err(ToolError::Config(error.message())),
            Ok(config) => match &config.active_directory {
                Some(directory) => Ok(directory.clone()),
                None => Err(ToolError::NoActiveDirectory),
            },
        },
    }
}

/// What listing a directory gives: the directory and its children in the
/// order of their names, or the first check that fails.
pub open spec fn listed_files(
    requested: Option<Seq<char>>,
    loaded: Result<ConfigView, Seq<char>>,
    exists: bool,
    is_dir: bool,
    entries: Option<Seq<Option<DirEntryView>>>,
) -> Result<(Seq<char>, Seq<FileInfoView>), ToolErrorView> {
    match listing_directory_of(requested, loaded) {
        Err(error) => Err(error),
        Ok(directory) => if !exists {
            Err(ToolErrorView::DirectoryNotFound(directory))
        } else if !is_dir {
            Err(ToolErrorView::NotADirectory(directory))
        } else {
            match entries {
                None => Err(ToolErrorView::ReadFailed(directory)),
                Some(entries) => match files_of(entries) {
                    Err(error) => Err(error),
                    Ok(files) => Ok((directory, sorted_by_name(files))),
                },
            }
        },
    }
}

/// The view of a listing, or of the error in its place.
pub open spec fn listing_view(outcome: Result<ListFilesInDirectoryResult, ToolError>) -> Result<
    (Seq<char>, Seq<FileInfoView>),
    ToolErrorView,
> {
    match outcome {
        Ok(result) => Ok((result.directory@, files_view(result.files@))),
        Err(error) => Err(error@),
    }
}

fn file_of_entry(entry: &Option<DirEntry>) -> (file: Result<FileInfo, ToolError>)
    ensures
        match file {
            Ok(file) => entry_file(entry_view(*entry)) == Ok::<FileInfoView, ToolErrorView>(file@),
            Err(error) => entry_file(entry_view(*entry)) == Err::<FileInfoView, ToolErrorView>(
                error@,
            ),
        },
{
    match entry {
        None => Err(ToolError::EntryFailed),
        Some(entry) => match &entry.name {
            None => Err(ToolError::InvalidName(entry.path.clone())),
            Some(name) => Ok(
                FileInfo {
                    name: name.clone(),
                    path: entry.path.clone(),
                    is_file: entry.is_file,
                    extension: path_extension(entry.path.as_str()),
                },
            ),
        },
    }
}

/// Lists the children of a directory, given what the file system says about
/// the directory that `listing_directory` names: files and directories alike,
/// in the order of their names.
pub fn list_files_in_directory(
    params: ListFilesInDirectoryParams,
    loaded: &Result<Config, ConfigError>,
    listing: &DirectoryListing,
) -> (outcome: Result<ListFilesInDirectoryResult, ToolError>)
    ensures
        listing_view(outcome) == listed_files(
            text_view(params.directory),
            loaded_view(*loaded),
            listing.exists,
            listing.is_dir,
            listing_entries(*listing),
        ),
{
    let directory = listing_directory(&params, loaded)?;
    if !listing.exists {
        return Err(ToolError::DirectoryNotFound(directory));
    }
    if !listing.is_dir {
        return Err(ToolError::NotADirectory(directory));
    }
    let entries = match &listing.entries {
        None => {
            return Err(ToolError::ReadFailed(directory));
        },
        Some(entries) => entries,
    };
    let mut files: Vec<FileInfo> = Vec::new();
    let ghost mut taken: Seq<FileInfoView> = Seq::empty();
    let mut i: usize = 0;
    proof {
        assert(entries_view(entries@).take(0) =~= Seq::empty());
        assert(files_view(files@) =~= Seq::empty());
    }
    while i < entries.len()
        invariant
            i <= entries.len(),
            listing_directory_of(text_view(params.directory), loaded_view(*loaded)) == Ok::<
                Seq<char>,
                ToolErrorView,
            >(directory@),
            listing.exists,
            listing.is_dir,
            listing.entries == Some(*entries),
            files_of(entries_view(entries@).take(i as int)) == Ok::<
                Seq<FileInfoView>,
                ToolErrorView,
            >(taken),
            files_view(files@) == sorted_by_name(taken),
        decreases entries.len() - i,
    {
        let ghost viewed = entries_view(entries@);
        proof {
            assert(viewed.take(i as int + 1).drop_last() =~= viewed.take(i as int));
            assert(viewed.take(i as int + 1).last() == entry_view(entries@[i as int]));
        }
        match file_of_entry(&entries[i]) {
            Err(error) => {
                proof {
                    lemma_files_fail(viewed, i as int + 1);
                }
                return Err(error);
            },
            Ok(file) => {
                proof {
                    assert(taken.push(file@).drop_last() =~= taken);
                    taken = taken.push(file@);
                }
                insert_by_name(&mut files, file);
            },
        }
        i = i + 1;
    }
    proof {
        assert(entries_view(entries@).take(i as int) =~= entries_view(entries@));
    }
    Ok(ListFilesInDirectoryResult { directory, files })
}

} // verus!
