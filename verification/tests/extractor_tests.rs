use docu_mcp::extractor::{create_extractor, select_extractor, ExtractorError, ExtractorKind};

#[test]
fn test_create_extractor_for_pdf() {
    let result = create_extractor("fixtures/boardingPass.pdf");
    assert!(result.is_ok(), "Factory should create extractor for PDF files");
    let extractor = result.unwrap();
    assert_eq!(extractor, ExtractorKind::Pdf);
    assert_eq!(
        extractor.extractor_type(),
        "PdfExtractor",
        "Factory should return PdfExtractor instance for PDF files"
    );
}

#[test]
fn test_create_extractor_for_unsupported_format() {
    let result = create_extractor("fixtures/test.txt");
    assert!(result.is_err(), "Factory should return error for unsupported formats");
    if let Err(e) = result {
        let error_msg = e.message();
        assert!(
            error_msg.contains("Unsupported file format"),
            "Error message should mention unsupported format. Got: {}",
            error_msg
        );
    }
}

#[test]
fn test_create_extractor_for_file_without_extension() {
    let result = create_extractor("somefile");
    assert!(result.is_err(), "Factory should return error for files without extension");
}

#[test]
fn extension_decides_whatever_its_case() {
    assert_eq!(create_extractor("/docs/report.pdf"), Ok(ExtractorKind::Pdf));
    assert_eq!(create_extractor("/docs/REPORT.PDF"), Ok(ExtractorKind::Pdf));
    assert_eq!(create_extractor("report.Pdf"), Ok(ExtractorKind::Pdf));
    assert_eq!(create_extractor("archive.pdf.zip"), Err(ExtractorError::UnsupportedFormat("zip".to_string())));
    assert_eq!(create_extractor("notes.TXT"), Err(ExtractorError::UnsupportedFormat("TXT".to_string())));
    assert_eq!(create_extractor("/docs.pdf/readme"), Err(ExtractorError::NoExtension("/docs.pdf/readme".to_string())));
    assert_eq!(create_extractor(".pdf"), Err(ExtractorError::NoExtension(".pdf".to_string())));
    assert_eq!(create_extractor(""), Err(ExtractorError::NoExtension("".to_string())));
}

#[test]
fn extractor_is_selected_by_the_lowered_extension() {
    assert_eq!(select_extractor("a.PDF", Some("PDF"), "pdf"), Ok(ExtractorKind::Pdf));
    assert_eq!(
        select_extractor("a.PDF", Some("PDF"), "PDF"),
        Err(ExtractorError::UnsupportedFormat("PDF".to_string()))
    );
    assert_eq!(select_extractor("a", None, "pdf"), Err(ExtractorError::NoExtension("a".to_string())));
}

#[test]
fn extractor_errors_speak() {
    assert_eq!(
        ExtractorError::NoExtension("somefile".to_string()).message(),
        "File has no extension: somefile"
    );
    assert_eq!(
        ExtractorError::UnsupportedFormat("txt".to_string()).message(),
        "Unsupported file format: txt. Only PDF files are supported in Phase 1."
    );
}
