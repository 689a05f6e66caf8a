use kw_search::archive::{
    archive_file_name, download_headers, not_found_message, partial_archive_file_name,
    plan_download, DownloadStep,
};
use kw_search::builder::{
    build_index, finish_index_request, index_entries, index_path, index_schema_fields,
    new_index_name, process_json, rejected_request, request_shape, write_documents, BuildError,
    Rejection, RequestShape,
};
use kw_search::decoder::{decode_batch, decode_upload, UploadField};
use kw_search::document::{DocumentInput, OutcomeStatus};
use kw_search::error::ServerError;
use kw_search::search::{
    default_top_k, failure_text, hits_from, query_handler, search_answer, search_index,
    FoundDocument, QueryRequest, QueryResponse, SearchFailure, SearchStage,
};
use kw_search::url_prefix::{
    download_url, prefix_source, resolve_download_url_prefix, BindAddress, DownloadUrlPrefix,
};


fn record(content: &str, title: Option<&str>) -> DocumentInput {
    DocumentInput { content: content.to_string(), title: title.map(|t| t.to_string()) }
}

fn local_prefix() -> DownloadUrlPrefix {
    DownloadUrlPrefix { scheme: "http".to_string(), host: "localhost".to_string(), port: Some(9069) }
}

/// An index in memory, with the library's schema, holding the documents.
fn memory_index(documents: &Vec<DocumentInput>) -> tantivy::Index {
    let fields = index_schema_fields();
    let index = tantivy::Index::create_in_ram(fields.schema);
    assert!(write_documents(&index, fields.title, fields.body, documents).is_ok());
    index
}

fn search(index: &tantivy::Index, query: &str, top_k: usize) -> QueryResponse {
    let request = QueryRequest { query: query.to_string(), top_k, index: "memory".to_string() };
    search_index(index, &request)
}

#[test]
fn batch_is_indexed_and_searchable() {
    let items = vec![record("the cat sat", Some("A")), record("  ", Some("B"))];
    let decoded = decode_batch(&items);
    assert_eq!(decoded.results.len(), 2);
    assert_eq!(decoded.results[0].filename, "A");
    assert_eq!(decoded.results[0].status, OutcomeStatus::Indexed);
    assert_eq!(decoded.results[0].error, None);
    assert_eq!(decoded.results[1].filename, "B");
    assert_eq!(decoded.results[1].status, OutcomeStatus::Failed);
    assert_eq!(decoded.results[1].error.as_deref(), Some("Empty content is not allowed"));
    assert_eq!(decoded.documents.len(), 1);
    let index = memory_index(&decoded.documents);

    let found = search(&index, "cat", 1);
    assert_eq!(found.error, None);
    assert_eq!(found.hits.len(), 1);
    assert_eq!(found.hits[0].title, "A");
    assert_eq!(found.hits[0].content, "the cat sat");
    assert!(f32::from_bits(found.hits[0].score_bits) > 0.0);
}

#[test]
fn token_in_one_document_ranks_it_first() {
    let items = vec![
        record("apples and pears", Some("fruit")),
        record("carrots and leeks", Some("vegetables")),
        record("bread and butter", None),
    ];
    let index = memory_index(&decode_batch(&items).documents);
    let found = search(&index, "leeks", 1);
    assert_eq!(found.error, None);
    assert_eq!(found.hits.len(), 1);
    assert_eq!(found.hits[0].title, "vegetables");
    assert_eq!(found.hits[0].content, "carrots and leeks");
    let untitled = search(&index, "butter", 3);
    assert_eq!(untitled.hits.len(), 1);
    assert_eq!(untitled.hits[0].title, "Unknown");
    let common = search(&index, "and", 2);
    assert_eq!(common.error, None);
    assert_eq!(common.hits.len(), 2);
    let none = search(&index, "walnuts", 5);
    assert_eq!(none.error, None);
    assert!(none.hits.is_empty());
}

#[test]
fn query_is_scoped_to_the_body() {
    let index = memory_index(&vec![record("plain words", Some("kiwi"))]);
    let found = search(&index, "kiwi", 5);
    assert_eq!(found.error, None);
    assert!(found.hits.is_empty());
}

#[test]
fn upload_is_indexed_without_titles() {
    let fields = vec![
        UploadField {
            filename: Some("notes.md".to_string()),
            content_type: Some("text/markdown".to_string()),
            data: Ok(b"# heading\nsome zebra text".to_vec()),
        },
        UploadField {
            filename: Some("image.png".to_string()),
            content_type: Some("image/png".to_string()),
            data: Ok(b"zebra".to_vec()),
        },
    ];
    let decoded = decode_upload(&fields);
    assert_eq!(decoded.results.len(), 2);
    assert_eq!(decoded.results[1].status, OutcomeStatus::Failed);
    let index = memory_index(&decoded.documents);
    let found = search(&index, "zebra", 5);
    assert_eq!(found.hits.len(), 1);
    assert_eq!(found.hits[0].title, "Unknown");
    assert_eq!(found.hits[0].content, "# heading\nsome zebra text");
}

#[test]
fn missing_index_gives_error_and_no_hits() {
    let request = QueryRequest { query: "cat".to_string(), top_k: 5, index: "index-missing".to_string() };
    let found = query_handler(&request, "index_storage/index-missing", false);
    assert!(found.hits.is_empty());
    assert_eq!(found.error.as_deref(), Some("Index 'index-missing' does not exist"));
}

#[test]
fn unopenable_index_gives_error_and_no_hits() {
    let request = QueryRequest { query: "cat".to_string(), top_k: 5, index: "x".to_string() };
    let found = query_handler(&request, "index_storage_tests/not-there", true);
    assert!(found.hits.is_empty());
    assert!(found.error.unwrap().starts_with("Failed to open index: "));
}

#[test]
fn zero_top_k_is_refused() {
    let index = memory_index(&vec![record("cat", None)]);
    let found = search(&index, "cat", 0);
    assert!(found.hits.is_empty());
    assert_eq!(found.error.as_deref(), Some("Invalid top_k: it must be between 1 and 1048576"));
}

#[test]
fn oversized_top_k_is_refused() {
    let index = memory_index(&vec![record("cat", None)]);
    let found = search(&index, "cat", usize::MAX);
    assert!(found.hits.is_empty());
    assert_eq!(found.error.as_deref(), Some("Invalid top_k: it must be between 1 and 1048576"));
    let largest = search(&index, "cat", 1_048_576);
    assert_eq!(largest.error, None);
    assert_eq!(largest.hits.len(), 1);
    let request = QueryRequest { query: "cat".to_string(), top_k: 0, index: "x".to_string() };
    let refused = query_handler(&request, "index_storage_tests/not-there", true);
    assert_eq!(refused.error.as_deref(), Some("Invalid top_k: it must be between 1 and 1048576"));
}

#[test]
fn engine_results_become_hits_in_order() {
    let found = vec![
        FoundDocument { score_bits: 2.5f32.to_bits(), title: Some("first".to_string()), body: None },
        FoundDocument { score_bits: 1.0f32.to_bits(), title: None, body: Some("second body".to_string()) },
    ];
    let hits = hits_from(&found);
    assert_eq!(hits.len(), 2);
    assert_eq!((hits[0].title.as_str(), hits[0].content.as_str()), ("first", "Unknown"));
    assert_eq!((hits[1].title.as_str(), hits[1].content.as_str()), ("Unknown", "second body"));
    assert_eq!(f32::from_bits(hits[0].score_bits), 2.5);
    let answer = search_answer(&Ok(found));
    assert_eq!(answer.error, None);
    assert_eq!(answer.hits.len(), 2);
    assert_eq!(answer.hits[1].content, "second body");
    let failed = search_answer(&Err(SearchFailure {
        stage: SearchStage::ParseQuery,
        detail: "unexpected end".to_string(),
    }));
    assert!(failed.hits.is_empty());
    assert_eq!(failed.error.as_deref(), Some("Failed to parse query: unexpected end"));
    let fetch = failure_text(&SearchFailure { stage: SearchStage::FetchDocument, detail: "io".to_string() });
    assert_eq!(fetch, "Failed to retrieve document: io");
    let search_failed = failure_text(&SearchFailure { stage: SearchStage::Search, detail: "x".to_string() });
    assert_eq!(search_failed, "Search failed: x");
}

#[test]
fn malformed_query_gives_error() {
    let index = memory_index(&vec![record("cat", None)]);
    let found = search(&index, "cat AND (", 5);
    assert!(found.hits.is_empty());
    assert!(found.error.unwrap().starts_with("Failed to parse query: "));
}

#[test]
fn index_creation_failure_keeps_outcomes_without_link() {
    let items = vec![record("text", Some("t"))];
    let response = process_json(
        &items,
        "index-nowhere".to_string(),
        "index_storage_tests/no/such/dir",
        &local_prefix(),
    );
    assert_eq!(response.results.len(), 1);
    assert_eq!(response.results[0].status, OutcomeStatus::Indexed);
    assert!(response.index_name.is_none());
    assert!(response.download_url.is_none());
    assert!(matches!(
        build_index("index_storage_tests/no/such/dir", &items),
        Err(BuildError::CreateIndex(_))
    ));
}

#[test]
fn finishing_a_request() {
    let done = finish_index_request(Vec::new(), "index-1".to_string(), &Ok(()), &local_prefix());
    assert_eq!(done.index_name.as_deref(), Some("index-1"));
    assert_eq!(done.download_url.as_deref(), Some("http://localhost:9069/v1/files/download/index-1"));
    let failed = finish_index_request(
        Vec::new(),
        "index-1".to_string(),
        &Err(BuildError::Commit("disk full".to_string())),
        &local_prefix(),
    );
    assert!(failed.index_name.is_none());
    assert!(failed.download_url.is_none());
}

#[test]
fn entries_default_the_title() {
    let entries = index_entries(&vec![record("x", None), record("y", Some("Y"))]);
    assert_eq!(entries, vec![
        ("Unknown".to_string(), "x".to_string()),
        ("Y".to_string(), "y".to_string()),
    ]);
}

#[test]
fn index_names_are_fresh() {
    let a = new_index_name();
    let b = new_index_name();
    assert_eq!(a.len(), 42);
    assert!(a.starts_with("index-"));
    assert_eq!(&a[14..15], "-");
    assert_ne!(a, b);
    assert_eq!(index_path("root", "index-1"), "root/index-1");
}

#[test]
fn request_shapes() {
    assert_eq!(request_shape("multipart/form-data; boundary=xyz"), RequestShape::Multipart);
    assert_eq!(request_shape("multipart/form-data"), RequestShape::Multipart);
    assert_eq!(request_shape("application/json"), RequestShape::Json);
    assert_eq!(request_shape("application/json; charset=utf-8"), RequestShape::Unsupported);
    assert_eq!(request_shape("text/plain"), RequestShape::Unsupported);
    assert_eq!(request_shape(""), RequestShape::Unsupported);
}

#[test]
fn rejected_requests() {
    let r = rejected_request(Rejection::UnsupportedContentType);
    assert_eq!(r.results.len(), 1);
    assert_eq!(r.results[0].filename, "unknown");
    assert_eq!(r.results[0].status, OutcomeStatus::Failed);
    assert_eq!(r.results[0].error.as_deref(), Some("Unsupported content type"));
    assert!(r.index_name.is_none() && r.download_url.is_none());
    let m = rejected_request(Rejection::MalformedMultipart);
    assert_eq!(m.results[0].error.as_deref(), Some("Failed to parse multipart request"));
    let j = rejected_request(Rejection::MalformedJson);
    assert_eq!(j.results[0].error.as_deref(), Some("Failed to parse JSON request"));
}

#[test]
fn default_top_k_is_five() {
    assert_eq!(default_top_k(), 5);
}

#[test]
fn prefix_from_bind_address() {
    assert_eq!(
        prefix_source(&None, BindAddress::V4(0, 0, 0, 0), 9069).ok().as_deref(),
        Some("http://localhost:9069")
    );
    assert_eq!(
        prefix_source(&None, BindAddress::V4(192, 168, 10, 7), 8080).ok().as_deref(),
        Some("http://192.168.10.7:8080")
    );
    assert_eq!(
        prefix_source(&Some("https://search.example".to_string()), BindAddress::V6, 1).ok().as_deref(),
        Some("https://search.example")
    );
    assert_eq!(
        prefix_source(&None, BindAddress::V6, 9069).err(),
        Some(ServerError::Operation("ipv6 is not supported".to_string()))
    );
}

#[test]
fn resolving_the_prefix() {
    let p = resolve_download_url_prefix(&None, BindAddress::V4(0, 0, 0, 0), 9069).unwrap();
    assert_eq!((p.scheme.as_str(), p.host.as_str(), p.port), ("http", "localhost", Some(9069)));
    let q = resolve_download_url_prefix(
        &Some("https://search.example:8443".to_string()),
        BindAddress::V6,
        1,
    )
    .unwrap();
    assert_eq!((q.scheme.as_str(), q.host.as_str(), q.port), ("https", "search.example", Some(8443)));
    let d = resolve_download_url_prefix(&Some("http://search.example".to_string()), BindAddress::V6, 1)
        .unwrap();
    assert_eq!(d.port, None);
    assert_eq!(download_url(&d, "index-9"), "http://search.example/v1/files/download/index-9");
    let bad = resolve_download_url_prefix(&Some("not a url".to_string()), BindAddress::V4(0, 0, 0, 0), 1);
    assert!(matches!(bad, Err(ServerError::ArgumentError(_))));
    let hostless = resolve_download_url_prefix(&Some("mailto:someone".to_string()), BindAddress::V6, 1);
    assert!(matches!(hostless, Err(ServerError::ArgumentError(_))));
    let v6 = resolve_download_url_prefix(&None, BindAddress::V6, 9069);
    assert_eq!(v6.err().map(|e| e.message()), Some("ipv6 is not supported".to_string()));
}

#[test]
fn download_links() {
    assert_eq!(
        download_url(&local_prefix(), "index-abc"),
        "http://localhost:9069/v1/files/download/index-abc"
    );
}

#[test]
fn second_download_serves_the_stored_archive() {
    assert_eq!(plan_download(false, false), DownloadStep::NotFound);
    assert_eq!(plan_download(false, true), DownloadStep::NotFound);
    let first = plan_download(true, false);
    assert_eq!(first, DownloadStep::Package);
    let second = plan_download(true, true);
    assert_eq!(second, DownloadStep::Serve);
}

#[test]
fn archive_names_and_headers() {
    assert_eq!(archive_file_name("index-1"), "index-1.tar.gz");
    assert_eq!(partial_archive_file_name("index-1"), "index-1.tar.gz.partial");
    assert_eq!(not_found_message("index-1"), "Index 'index-1' not found");
    let headers = download_headers("index-1.tar.gz", 10240);
    let expected: Vec<(String, String)> = vec![
        ("Access-Control-Allow-Origin", "*"),
        ("Access-Control-Allow-Methods", "*"),
        ("Access-Control-Allow-Headers", "*"),
        ("Content-Type", "application/gzip"),
        ("Content-Disposition", "attachment; filename=\"index-1.tar.gz\""),
        ("Content-Length", "10240"),
    ]
    .into_iter()
    .map(|(a, b)| (a.to_string(), b.to_string()))
    .collect();
    assert_eq!(headers, expected);
}

#[test]
fn server_error_message() {
    assert_eq!(ServerError::ArgumentError("bad".to_string()).message(), "bad");
    assert_eq!(ServerError::Operation("failed".to_string()).message(), "failed");
}
