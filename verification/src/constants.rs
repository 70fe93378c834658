//! File extensions and their MIME types.

use vstd::prelude::*;
use crate::text::{lowercase_of, text_eq, to_lowercase};

verus! {

/// The extension of PDF documents, the one format that is read.
pub const PDF_EXTENSION: &'static str = "pdf";

/// The extension of Word documents in the XML format.
pub const DOCX_EXTENSION: &'static str = "docx";

/// The extension of Word documents in the binary format.
pub const DOC_EXTENSION: &'static str = "doc";

/// The extension of plain text files.
pub const TXT_EXTENSION: &'static str = "txt";

/// Whether a lower-case extension is one whose documents can be read.
pub open spec fn supported_extension(lowered: Seq<char>) -> bool {
    lowered == "pdf"@
}

/// Whether a lower-case extension is one whose documents can be read.
pub fn is_supported_extension(lowered: &str) -> (supported: bool)
    ensures
        supported == supported_extension(lowered@),
{
    text_eq(lowered, PDF_EXTENSION)
}

/// The MIME type that belongs to a lower-case extension.
pub open spec fn mime_type_of(lowered: Seq<char>) -> Seq<char> {
    if lowered == "pdf"@ {
        "application/pdf"@
    } else if lowered == "docx"@ {
        "application/vnd.openxmlformats-officedocument.wordprocessingml.document"@
    } else if lowered == "doc"@ {
        "application/msword"@
    } else if lowered == "txt"@ {
        "text/plain"@
    } else {
        "application/octet-stream"@
    }
}

/// The MIME type that belongs to an extension already in lower case.
pub fn mime_type_for(lowered: &str) -> (mime: &'static str)
    ensures
        mime@ == mime_type_of(lowered@),
{
    if text_eq(lowered, PDF_EXTENSION) {
        "application/pdf"
    } else if text_eq(lowered, DOCX_EXTENSION) {
        "application/vnd.openxmlformats-officedocument.wordprocessingml.document"
    } else if text_eq(lowered, DOC_EXTENSION) {
        "application/msword"
    } else if text_eq(lowered, TXT_EXTENSION) {
        "text/plain"
    } else {
        "application/octet-stream"
    }
}

/// The MIME type of a file extension, whatever its case.
pub fn get_mime_type(extension: &str) -> (mime: &'static str)
    ensures
        mime@ == mime_type_of(lowercase_of(extension@)),
{
    let lowered = to_lowercase(extension);
    mime_type_for(lowered.as_str())
}

} // verus!
