use docu_mcp::constants::{get_mime_type, is_supported_extension, mime_type_for};
use docu_mcp::text::{after, concat2, concat3, concat4, decimal_text, starts_with, text_eq};

#[test]
fn decimal_text_writes_integers() {
    assert_eq!(decimal_text(0), "0");
    assert_eq!(decimal_text(7), "7");
    assert_eq!(decimal_text(10), "10");
    assert_eq!(decimal_text(-32700), "-32700");
    assert_eq!(decimal_text(-32002), "-32002");
    assert_eq!(decimal_text(i32::MAX), "2147483647");
    assert_eq!(decimal_text(i32::MIN), "-2147483648");
}

#[test]
fn texts_are_joined_in_order() {
    assert_eq!(concat2("a", "b"), "ab");
    assert_eq!(concat3("a", "b", "c"), "abc");
    assert_eq!(concat4("a", "b", "c", "d"), "abcd");
}

#[test]
fn starts_with_and_after_split_a_text() {
    assert!(starts_with("pdf://x", "pdf://"));
    assert!(starts_with("pdf://", "pdf://"));
    assert!(!starts_with("pdf:/", "pdf://"));
    assert!(!starts_with("xpdf://", "pdf://"));
    assert!(starts_with("anything", ""));
    assert_eq!(after("pdf://x.pdf", 6), "x.pdf");
    assert_eq!(after("h\u{e9}llo", 2), "llo");
    assert_eq!(after("abc", 3), "");
    assert_eq!(after("abc", 4), "");
}

#[test]
fn text_eq_compares_characters() {
    assert!(text_eq("abc", "abc"));
    assert!(!text_eq("abc", "abd"));
    assert!(!text_eq("abc", "ab"));
}

#[test]
fn mime_type_follows_the_extension() {
    assert_eq!(get_mime_type("pdf"), "application/pdf");
    assert_eq!(
        get_mime_type("docx"),
        "application/vnd.openxmlformats-officedocument.wordprocessingml.document"
    );
    assert_eq!(get_mime_type("doc"), "application/msword");
    assert_eq!(get_mime_type("txt"), "text/plain");
    assert_eq!(get_mime_type("zip"), "application/octet-stream");
    assert_eq!(get_mime_type(""), "application/octet-stream");
}

#[test]
fn mime_type_ignores_the_case_of_the_extension() {
    assert_eq!(get_mime_type("PDF"), "application/pdf");
    assert_eq!(get_mime_type("Txt"), "text/plain");
    assert_eq!(mime_type_for("PDF"), "application/octet-stream");
}

#[test]
fn only_pdf_is_supported() {
    assert!(is_supported_extension("pdf"));
    assert!(!is_supported_extension("PDF"));
    assert!(!is_supported_extension("txt"));
}
