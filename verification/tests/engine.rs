//! Tests of identifier extraction, filename handling, and metadata
//! resolution.

use smartedu_downloader::filename::{choose_output_filename, sanitize_filename};
use smartedu_downloader::identifier::get_content_id;
use smartedu_downloader::metadata::{resolve_textbook_details, ResolveError, VariantRecord};

const ID: &str = "01234567-89ab-cdef-0123-456789abcdef";
const ID2: &str = "fedcba98-7654-3210-fedc-ba9876543210";

#[test]
fn direct_identifier_is_extracted() {
    assert_eq!(get_content_id(ID), Some(ID.to_string()));
}

#[test]
fn uppercase_identifier_is_rejected() {
    assert_eq!(get_content_id("01234567-89AB-CDEF-0123-456789ABCDEF"), None);
}

#[test]
fn malformed_identifier_is_rejected() {
    assert_eq!(get_content_id("01234567-89ab-cdef-0123-456789abcde"), None);
    assert_eq!(get_content_id("0123456789abcdef0123456789abcdef0123"), None);
    assert_eq!(get_content_id(""), None);
}

#[test]
fn identifier_from_url_query() {
    let url = format!(
        "https://x.example/tchMaterial/detail?catalogType=tchMaterial&contentId={}&fromFlag=1",
        ID
    );
    assert_eq!(get_content_id(&url), Some(ID.to_string()));
}

#[test]
fn url_without_content_id_yields_none() {
    assert_eq!(get_content_id("https://x.example/detail?other=1"), None);
    assert_eq!(get_content_id("not a url at all"), None);
}

#[test]
fn url_with_invalid_content_id_yields_none() {
    assert_eq!(
        get_content_id("https://x.example/detail?contentId=not-an-identifier"),
        None
    );
}

#[test]
fn url_first_matching_parameter_wins() {
    let url = format!(
        "https://x.example/detail?contentId=bogus&contentId={}&contentId={}",
        ID, ID2
    );
    assert_eq!(get_content_id(&url), Some(ID.to_string()));
}

#[test]
fn sanitize_replaces_illegal_characters() {
    assert_eq!(
        sanitize_filename("a<b>c:d\"e/f\\g|h?i*j"),
        "a_b_c_d_e_f_g_h_i_j"
    );
    assert_eq!(sanitize_filename("plain name.pdf"), "plain name.pdf");
    assert_eq!(sanitize_filename(""), "");
}

fn source_record(storage: &str, checksum: Option<&str>, size: Option<u64>) -> VariantRecord {
    VariantRecord {
        file_flag: "source".to_string(),
        format: "pdf".to_string(),
        storage_locations: vec![storage.to_string()],
        checksum: checksum.map(|c| c.to_string()),
        size,
    }
}

#[test]
fn resolve_picks_source_pdf_variant() {
    let records = vec![
        VariantRecord {
            file_flag: "preview".to_string(),
            format: "pdf".to_string(),
            storage_locations: vec!["https://host.example/p/preview.pdf".to_string()],
            checksum: None,
            size: None,
        },
        source_record("https://host.example/files/book.pdf", Some("abc123"), Some(5)),
    ];
    let meta = resolve_textbook_details(&records, "Title", ID, "TOK").unwrap();
    assert_eq!(
        meta.download_url,
        "https://host.example/files/book.pdf?accessToken=TOK"
    );
    assert_eq!(meta.filename, "book.pdf");
    assert_eq!(meta.expected_checksum, Some("abc123".to_string()));
    assert_eq!(meta.expected_size, Some(5));
}

#[test]
fn resolve_title_fallback_drops_checksum() {
    let records = vec![source_record(
        "https://host.example/files/book.pdf.pdf",
        Some("abc123"),
        Some(5),
    )];
    let meta = resolve_textbook_details(&records, "My: Book?", ID, "TOK").unwrap();
    assert_eq!(meta.filename, "My_ Book_.pdf");
    assert_eq!(meta.expected_checksum, None);
    assert_eq!(meta.expected_size, Some(5));
}

#[test]
fn resolve_appends_missing_extension() {
    let records = vec![source_record("https://host.example/files/book", None, None)];
    let meta = resolve_textbook_details(&records, "Title", ID, "TOK").unwrap();
    assert_eq!(meta.filename, "book.pdf");
}

#[test]
fn resolve_falls_back_to_identifier_when_no_base_name() {
    let records = vec![source_record("///", None, None)];
    let meta = resolve_textbook_details(&records, "Title", ID, "TOK").unwrap();
    assert_eq!(meta.filename, format!("{}.pdf", ID));
}

#[test]
fn resolve_double_extension_check_ignores_case() {
    let records = vec![source_record(
        "https://host.example/files/BOOK.PDF.PDF",
        Some("abc123"),
        None,
    )];
    let meta = resolve_textbook_details(&records, "Some Title", ID, "TOK").unwrap();
    assert_eq!(meta.filename, "Some Title.pdf");
    assert_eq!(meta.expected_checksum, None);
}

#[test]
fn resolve_keeps_uppercase_extension() {
    let records = vec![source_record("https://host.example/files/Book.PDF", None, None)];
    let meta = resolve_textbook_details(&records, "Title", ID, "TOK").unwrap();
    assert_eq!(meta.filename, "Book.PDF");
}

#[test]
fn resolve_without_source_variant_fails() {
    let records = vec![VariantRecord {
        file_flag: "source".to_string(),
        format: "epub".to_string(),
        storage_locations: vec!["https://host.example/b.epub".to_string()],
        checksum: None,
        size: None,
    }];
    assert_eq!(
        resolve_textbook_details(&records, "Title", ID, "TOK").unwrap_err(),
        ResolveError::NoSourceVariant
    );
}

#[test]
fn resolve_without_storage_location_fails() {
    let records = vec![VariantRecord {
        file_flag: "source".to_string(),
        format: "pdf".to_string(),
        storage_locations: vec![],
        checksum: None,
        size: None,
    }];
    assert_eq!(
        resolve_textbook_details(&records, "Title", ID, "TOK").unwrap_err(),
        ResolveError::NoStorageLocation
    );
}

#[test]
fn single_run_output_filename_overrides_resolved() {
    let resolved = "resolved.pdf".to_string();
    let out = "dir/custom.pdf".to_string();
    assert_eq!(
        choose_output_filename(false, Some(&out), &resolved),
        "custom.pdf"
    );
    let dir = "downloads/".to_string();
    assert_eq!(choose_output_filename(false, Some(&dir), &resolved), "resolved.pdf");
    assert_eq!(choose_output_filename(false, None, &resolved), "resolved.pdf");
    assert_eq!(choose_output_filename(true, Some(&out), &resolved), "resolved.pdf");
}
