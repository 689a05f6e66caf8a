use kw_search::decoder::{
    decode_batch, decode_field, decode_upload, is_valid_content_type, process_field_content,
    UploadField,
};
use kw_search::document::{process_content, DocumentInput, OutcomeStatus};
use kw_search::text::{decimal_text, is_blank_text, same_text};

fn record(content: &str, title: Option<&str>) -> DocumentInput {
    DocumentInput { content: content.to_string(), title: title.map(|t| t.to_string()) }
}

fn field(name: Option<&str>, media: Option<&str>, data: Result<Vec<u8>, String>) -> UploadField {
    UploadField {
        filename: name.map(|n| n.to_string()),
        content_type: media.map(|m| m.to_string()),
        data,
    }
}

#[test]
fn batch_with_blank_item_reports_both_and_keeps_one() {
    let items = vec![record("the cat sat", Some("A")), record("  ", Some("B"))];
    let decoded = decode_batch(&items);
    assert_eq!(decoded.results.len(), 2);
    assert_eq!(decoded.results[0].filename, "A");
    assert_eq!(decoded.results[0].status, OutcomeStatus::Indexed);
    assert_eq!(decoded.results[0].error, None);
    assert_eq!(decoded.results[1].filename, "B");
    assert_eq!(decoded.results[1].status, OutcomeStatus::Failed);
    assert_eq!(decoded.results[1].error.as_deref(), Some("Empty content is not allowed"));
    assert_eq!(decoded.documents.len(), 1);
    assert_eq!(decoded.documents[0].content, "the cat sat");
    assert_eq!(decoded.documents[0].title.as_deref(), Some("A"));
}

#[test]
fn batch_outcomes_follow_submission_order() {
    let items = vec![
        record("one", Some("first")),
        record("", None),
        record("three", None),
        record("four", Some("fourth")),
    ];
    let decoded = decode_batch(&items);
    let names: Vec<&str> = decoded.results.iter().map(|r| r.filename.as_str()).collect();
    assert_eq!(names, vec!["first", "Unknown", "Unknown", "fourth"]);
    let statuses: Vec<&str> = decoded.results.iter().map(|r| r.status.as_str()).collect();
    assert_eq!(statuses, vec!["indexed", "failed", "indexed", "indexed"]);
    let contents: Vec<&str> = decoded.documents.iter().map(|d| d.content.as_str()).collect();
    assert_eq!(contents, vec!["one", "three", "four"]);
}

#[test]
fn empty_batch_gives_no_outcome() {
    let decoded = decode_batch(&Vec::new());
    assert!(decoded.results.is_empty());
    assert!(decoded.documents.is_empty());
}

#[test]
fn blank_content_fails_in_both_shapes() {
    let decoded = decode_batch(&vec![record(" \t\n", Some("notes"))]);
    assert_eq!(decoded.results[0].status, OutcomeStatus::Failed);
    assert_eq!(decoded.results[0].error.as_deref(), Some("Empty content is not allowed"));
    let upload = decode_upload(&vec![field(
        Some("notes.txt"),
        Some("text/plain"),
        Ok(" \t\n".as_bytes().to_vec()),
    )]);
    assert_eq!(upload.results[0].filename, "notes.txt");
    assert_eq!(upload.results[0].status, OutcomeStatus::Failed);
    assert_eq!(upload.results[0].error.as_deref(), Some("Empty content is not allowed"));
    assert!(upload.documents.is_empty());
}

#[test]
fn unicode_white_space_is_blank() {
    assert!(is_blank_text("\u{3000}\u{a0}\u{2028} \r"));
    assert!(is_blank_text(""));
    assert!(!is_blank_text("\u{3000}x"));
    assert_eq!(process_content("\u{2003}"), Err("Empty content is not allowed".to_string()));
    assert_eq!(process_content(" a "), Ok(()));
}

#[test]
fn unsupported_media_type_is_never_indexed() {
    let fields = vec![
        field(Some("a.txt"), Some("text/plain"), Ok(b"alpha".to_vec())),
        field(Some("b.pdf"), Some("application/pdf"), Ok(b"beta".to_vec())),
        field(Some("c.md"), Some("text/markdown"), Ok(b"gamma".to_vec())),
    ];
    let decoded = decode_upload(&fields);
    assert_eq!(decoded.results.len(), 3);
    assert_eq!(decoded.results[1].filename, "b.pdf");
    assert_eq!(decoded.results[1].status, OutcomeStatus::Failed);
    assert_eq!(
        decoded.results[1].error.as_deref(),
        Some("Unsupported file type. Only .txt and .md files are allowed")
    );
    let contents: Vec<&str> = decoded.documents.iter().map(|d| d.content.as_str()).collect();
    assert_eq!(contents, vec!["alpha", "gamma"]);
    assert!(decoded.documents.iter().all(|d| d.title.is_none()));
}

#[test]
fn field_defaults_name_and_media_type() {
    let (outcome, doc) = decode_field(&field(None, None, Ok(b"body text".to_vec())));
    assert_eq!(outcome.filename, "unknown");
    assert_eq!(outcome.status, OutcomeStatus::Indexed);
    assert_eq!(doc.map(|d| d.content), Some("body text".to_string()));
}

#[test]
fn invalid_utf8_field_fails_without_stopping_the_batch() {
    let fields = vec![
        field(Some("bad.txt"), Some("text/plain"), Ok(vec![0x66, 0xff, 0x6f])),
        field(Some("good.txt"), Some("application/octet-stream"), Ok("héllo".as_bytes().to_vec())),
    ];
    let decoded = decode_upload(&fields);
    assert_eq!(decoded.results[0].status, OutcomeStatus::Failed);
    assert_eq!(decoded.results[0].error.as_deref(), Some("Invalid UTF-8 content"));
    assert_eq!(decoded.results[1].status, OutcomeStatus::Indexed);
    assert_eq!(decoded.documents.len(), 1);
    assert_eq!(decoded.documents[0].content, "héllo");
}

#[test]
fn unreadable_field_reports_the_read_error() {
    let (outcome, doc) = process_field_content(&Err("stream closed".to_string()), "x.txt".to_string());
    assert_eq!(outcome.status, OutcomeStatus::Failed);
    assert_eq!(outcome.error.as_deref(), Some("Failed to read file: stream closed"));
    assert!(doc.is_none());
}

#[test]
fn admitted_media_types() {
    assert!(is_valid_content_type("text/plain"));
    assert!(is_valid_content_type("text/markdown"));
    assert!(is_valid_content_type("application/octet-stream"));
    assert!(!is_valid_content_type("text/html"));
    assert!(!is_valid_content_type("text/plain; charset=utf-8"));
    assert!(!is_valid_content_type(""));
}

#[test]
fn decimal_notation() {
    assert_eq!(decimal_text(0), "0");
    assert_eq!(decimal_text(7), "7");
    assert_eq!(decimal_text(9069), "9069");
    assert_eq!(decimal_text(u64::MAX), "18446744073709551615");
    assert!(same_text("abc", "abc"));
    assert!(!same_text("abc", "abd"));
}
