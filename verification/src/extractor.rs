//! The choice of a text extractor by file extension.

use vstd::prelude::*;
use crate::paths::{extension_of, path_extension};
use crate::constants::PDF_EXTENSION;
use crate::text::{concat2, concat3, lowercase_of, text_eq, to_lowercase};

verus! {

/// Something that turns a document file into plain text.
pub trait DocumentExtractor {
    /// The text of the document at the given path, or why there is none.
    fn extract_text_from_file(&self, file_path: &str) -> Result<String, String>;

    /// The extractor's name.
    fn extractor_type(&self) -> &'static str;
}

/// The document formats that can be read.
#[derive(Debug, PartialEq, Eq, Clone, Copy)]
pub enum ExtractorKind {
    Pdf,
}

impl ExtractorKind {
    /// The name of the extractor that reads this format.
    pub fn extractor_type(&self) -> (name: &'static str)
        ensures
            name@ == "PdfExtractor"@,
    {
        match self {
            ExtractorKind::Pdf => "PdfExtractor",
        }
    }
}

/// Why no extractor reads a file.
#[derive(Debug, PartialEq)]
pub enum ExtractorError {
    /// The path, which has no extension.
    NoExtension(String),
    /// The extension, which is none of a known format.
    UnsupportedFormat(String),
}

/// What a [`ExtractorError`] holds, as mathematical values.
pub enum ExtractorErrorView {
    NoExtension(Seq<char>),
    UnsupportedFormat(Seq<char>),
}

impl View for ExtractorError {
    type V = ExtractorErrorView;

    open spec fn view(&self) -> ExtractorErrorView {
        match self {
            ExtractorError::NoExtension(path) => ExtractorErrorView::NoExtension(path@),
            ExtractorError::UnsupportedFormat(extension) => ExtractorErrorView::UnsupportedFormat(
                extension@,
            ),
        }
    }
}

impl ExtractorErrorView {
    /// The error in words.
    pub open spec fn message_text(self) -> Seq<char> {
        match self {
            ExtractorErrorView::NoExtension(path) => "File has no extension: "@ + path,
            ExtractorErrorView::UnsupportedFormat(extension) => "Unsupported file format: "@
                + extension + ". Only PDF files are supported in Phase 1."@,
        }
    }
}

impl ExtractorError {
    /// The error in words.
    pub fn message(&self) -> (message: String)
        ensures
            message@ == self@.message_text(),
    {
        match self {
            ExtractorError::NoExtension(path) => concat2("File has no extension: ", path.as_str()),
            ExtractorError::UnsupportedFormat(extension) => concat3(
                "Unsupported file format: ",
                extension.as_str(),
                ". Only PDF files are supported in Phase 1.",
            ),
        }
    }
}

/// The view of what an extractor made of a file.
pub open spec fn extracted_view(extracted: Result<String, String>) -> Result<Seq<char>, Seq<char>> {
    match extracted {
        Ok(text) => Ok(text@),
        Err(reason) => Err(reason@),
    }
}

/// The extractor for a path whose extension, and the extension's lower-case
/// form, are given: the format of the lower-case form decides.
pub open spec fn extractor_for(
    path: Seq<char>,
    extension: Option<Seq<char>>,
    lowered: Seq<char>,
) -> Result<ExtractorKind, ExtractorErrorView> {
    match extension {
        None => Err(ExtractorErrorView::NoExtension(path)),
        Some(extension) => if lowered == "pdf"@ {
            Ok(ExtractorKind::Pdf)
        } else {
            Err(ExtractorErrorView::UnsupportedFormat(extension))
        },
    }
}

/// The view of a choice of extractor.
pub open spec fn choice_view(choice: Result<ExtractorKind, ExtractorError>) -> Result<
    ExtractorKind,
    ExtractorErrorView,
> {
    match choice {
        Ok(kind) => Ok(kind),
        Err(error) => Err(error@),
    }
}

/// The extension of a path in lower case, or the empty text for a path
/// without one.
pub open spec fn lowered_extension(path: Seq<char>) -> Seq<char> {
    match extension_of(path) {
        Some(extension) => lowercase_of(extension),
        None => Seq::empty(),
    }
}

/// Chooses the extractor for a path whose extension has been found and put
/// into lower case.
pub fn select_extractor(path: &str, extension: Option<&str>, lowered: &str) -> (choice: Result<
    ExtractorKind,
    ExtractorError,
>)
    ensures
        choice_view(choice) == extractor_for(
            path@,
            match extension {
                Some(extension) => Some(extension@),
                None => None,
            },
            lowered@,
        ),
{
    match extension {
        None => Err(ExtractorError::NoExtension(path.to_owned())),
        Some(extension) => {
            if text_eq(lowered, PDF_EXTENSION) {
                Ok(ExtractorKind::Pdf)
            } else {
                Err(ExtractorError::UnsupportedFormat(extension.to_owned()))
            }
        },
    }
}

/// Chooses the extractor for a file by the extension of its path, whatever
/// the extension's case.
pub fn create_extractor(file_path: &str) -> (choice: Result<ExtractorKind, ExtractorError>)
    ensures
        choice_view(choice) == extractor_for(
            file_path@,
            extension_of(file_path@),
            lowered_extension(file_path@),
        ),
{
    match path_extension(file_path) {
        None => select_extractor(file_path, None, ""),
        Some(extension) => {
            let lowered = to_lowercase(extension.as_str());
            select_extractor(file_path, Some(extension.as_str()), lowered.as_str())
        },
    }
}

} // verus!
