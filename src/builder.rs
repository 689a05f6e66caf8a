//! The index builder: a fresh index for each request, with a fixed two-field
//! schema, holding the documents that the request contributed.
use vstd::prelude::*;
use vstd::string::*;

use crate::decoder::{
    batch_outcomes, decode_batch, decode_upload, field_views, upload_outcomes, UploadField,
};
use crate::document::{
    document_views, outcome_views, untitled, DocumentInput, DocumentResult, InputView,
    OutcomeStatus, OutcomeView,
};
use crate::engine::{
    add_document, add_stored_text_field, add_text, build_schema, commit, create_index_in_dir,
    declared_fields, engine_error_text, new_document, open_writer, schema_builder, schema_fields,
};
use crate::text::same_text;
use crate::url_prefix::{download_link, download_url, DownloadUrlPrefix};

verus! {

/// The bytes that an index writer may buffer before it flushes a segment.
pub const MEMORY_BUDGET_IN_BYTES: usize = 100_000_000;

/// Whether a character is a lower-case hexadecimal digit.
pub open spec fn is_lower_hex(c: char) -> bool {
    ('0' <= c && c <= '9') || ('a' <= c && c <= 'f')
}

/// The shape of a hyphenated identifier: 36 characters, hyphens at positions
/// 8, 13, 18 and 23, lower-case hexadecimal digits elsewhere.
pub open spec fn is_hyphenated_id(s: Seq<char>) -> bool {
    &&& s.len() == 36
    &&& forall|i: int|
        0 <= i < 36 ==> if i == 8 || i == 13 || i == 18 || i == 23 {
            s[i] == '-'
        } else {
            is_lower_hex(#[trigger] s[i])
        }
}

/// Relies on `uuid::Uuid::new_v4` and the `Display` impl of `Uuid`: a random
/// identifier in hyphenated lower-case form.
#[verifier::external_body]
fn fresh_uuid_text() -> (r: String)
    ensures
        is_hyphenated_id(r@),
{
    uuid::Uuid::new_v4().to_string()
}

/// Whether a text names an index as this library names them.
pub open spec fn is_index_name(s: Seq<char>) -> bool {
    &&& s.len() == 42
    &&& s.subrange(0, 6) == "index-"@
    &&& is_hyphenated_id(s.subrange(6, 42))
}

/// A fresh index name: `index-` followed by a random identifier.
pub fn new_index_name() -> (r: String)
    ensures
        is_index_name(r@),
{
    let id = fresh_uuid_text();
    let r = String::from_str("index-").concat(id.as_str());
    proof {
        reveal_strlit("index-");
        assert(r@.subrange(0, 6) =~= "index-"@);
        assert(r@.subrange(6, 42) =~= id@);
    }
    r
}

/// The directory of the named index under the storage root.
pub fn index_path(storage_root: &str, index_name: &str) -> (r: String)
    ensures
        r@ == storage_root@ + "/"@ + index_name@,
{
    String::from_str(storage_root).concat("/").concat(index_name)
}

/// The schema of every index, with its two fields.
pub struct IndexSchema {
    pub schema: tantivy::schema::Schema,
    pub title: tantivy::schema::Field,
    pub body: tantivy::schema::Field,
}

/// The fixed schema: a `title` and a `body` field, both tokenized and stored.
pub fn index_schema_fields() -> (r: IndexSchema)
    ensures
        schema_fields(r.schema) == seq!["title"@, "body"@],
{
    let mut b = schema_builder();
    proof {
        reveal_strlit("title");
        reveal_strlit("body");
    }
    let title = add_stored_text_field(&mut b, "title");
    assert(!declared_fields(b).contains("body"@)) by {
        assert(declared_fields(b) =~= seq!["title"@]);
        assert("body"@.len() != "title"@.len());
    }
    let body = add_stored_text_field(&mut b, "body");
    assert(declared_fields(b) =~= seq!["title"@, "body"@]);
    IndexSchema { schema: build_schema(b), title, body }
}

/// The title under which a document is stored.
pub open spec fn stored_title(d: InputView) -> Seq<char> {
    match d.title {
        Some(t) => t,
        None => untitled(),
    }
}

/// The title and body values written for a document.
pub fn document_fields(d: &DocumentInput) -> (r: (String, String))
    ensures
        r.0@ == stored_title(d@),
        r.1@ == d.content@,
{
    let title = match &d.title {
        Some(t) => t.clone(),
        None => String::from_str("Unknown"),
    };
    (title, d.content.clone())
}

/// The title and body pairs written for the documents, in order.
pub fn index_entries(documents: &Vec<DocumentInput>) -> (r: Vec<(String, String)>)
    ensures
        r@.len() == documents@.len(),
        forall|i: int|
            0 <= i < documents@.len() ==> (#[trigger] r@[i]).0@ == stored_title(documents@[i]@)
                && r@[i].1@ == documents@[i].content@,
{
    let mut r: Vec<(String, String)> = Vec::new();
    let mut i: usize = 0;
    while i < documents.len()
        invariant
            i <= documents@.len(),
            r@.len() == i,
            forall|j: int|
                0 <= j < i ==> (#[trigger] r@[j]).0@ == stored_title(documents@[j]@) && r@[j].1@
                    == documents@[j].content@,
        decreases documents@.len() - i,
    {
        r.push(document_fields(&documents[i]));
        i = i + 1;
    }
    r
}

/// Why an index could not be built.
pub enum BuildError {
    /// The index could not be created in its directory.
    CreateIndex(String),
    /// No writer could be opened on the index.
    OpenWriter(String),
    /// The written documents could not be committed.
    Commit(String),
}

/// Writes the pairs of `index_entries(documents)` into `index` as title and
/// body, and commits. A document that the writer refuses is skipped.
pub fn write_documents(
    index: &tantivy::Index,
    title: tantivy::schema::Field,
    body: tantivy::schema::Field,
    documents: &Vec<DocumentInput>,
) -> (r: Result<(), BuildError>)
    ensures
        r matches Err(e) ==> !(e is CreateIndex),
{
    let entries = index_entries(documents);
    let mut writer = match open_writer(index, MEMORY_BUDGET_IN_BYTES) {
        Ok(w) => w,
        Err(e) => {
            return Err(BuildError::OpenWriter(engine_error_text(&e)));
        },
    };
    let mut i: usize = 0;
    while i < entries.len()
        invariant
            i <= entries@.len(),
        decreases entries@.len() - i,
    {
        let mut doc = new_document();
        add_text(&mut doc, title, entries[i].0.as_str());
        add_text(&mut doc, body, entries[i].1.as_str());
        // a refused document keeps the outcome its content earned
        let _ = add_document(&writer, doc);
        i = i + 1;
    }
    match commit(&mut writer) {
        Ok(_) => Ok(()),
        Err(e) => Err(BuildError::Commit(engine_error_text(&e))),
    }
}

/// Creates an index with the fixed schema of `index_schema_fields` in the
/// existing directory `index_path`, and writes into it the pairs of
/// `index_entries(documents)`. Whether each step succeeds is the engine's to
/// decide: a failure to create the index is a `CreateIndex` error, and the
/// later failures are those of `write_documents`.
pub fn build_index(index_path: &str, documents: &Vec<DocumentInput>) -> (r: Result<(), BuildError>) {
    let fields = index_schema_fields();
    let index = match create_index_in_dir(index_path, fields.schema) {
        Ok(index) => index,
        Err(e) => {
            return Err(BuildError::CreateIndex(engine_error_text(&e)));
        },
    };
    write_documents(&index, fields.title, fields.body, documents)
}

/// The answer to an indexing request.
pub struct IndexResponse {
    pub results: Vec<DocumentResult>,
    pub index_name: Option<String>,
    pub download_url: Option<String>,
}

/// The answer to an indexing request, once the index was built or not: the
/// outcomes in any case, the index's name and download link only when it was.
pub fn finish_index_request(
    results: Vec<DocumentResult>,
    index_name: String,
    built: &Result<(), BuildError>,
    prefix: &DownloadUrlPrefix,
) -> (r: IndexResponse)
    ensures
        r.results@ == results@,
        built is Ok ==> (r.index_name matches Some(n) && n@ == index_name@),
        built is Ok ==> (r.download_url matches Some(u) && u@ == download_link(
            prefix@,
            index_name@,
        )),
        built is Err ==> r.index_name is None && r.download_url is None,
{
    match built {
        Ok(()) => {
            let url = download_url(prefix, index_name.as_str());
            IndexResponse { results, index_name: Some(index_name), download_url: Some(url) }
        },
        Err(_) => IndexResponse { results, index_name: None, download_url: None },
    }
}

/// What an indexing answer says of its outcomes and its index: the outcomes
/// are the given ones, and a name and a link are both given, or neither.
pub open spec fn answers(r: IndexResponse, outcomes: Seq<OutcomeView>, index_name: Seq<char>, prefix: DownloadUrlPrefix) -> bool {
    &&& outcome_views(r.results@) == outcomes
    &&& (r.index_name is Some <==> r.download_url is Some)
    &&& (r.index_name matches Some(n) ==> n@ == index_name)
    &&& (r.download_url matches Some(u) ==> u@ == download_link(prefix@, index_name))
}

/// Indexes a batch of records: the outcome of each record, in order, and a
/// fresh index in `index_path` holding the records with content.
pub fn process_json(
    documents: &Vec<DocumentInput>,
    index_name: String,
    index_path: &str,
    prefix: &DownloadUrlPrefix,
) -> (r: IndexResponse)
    ensures
        answers(r, batch_outcomes(document_views(documents@)), index_name@, *prefix),
{
    let decoded = decode_batch(documents);
    let built = build_index(index_path, &decoded.documents);
    finish_index_request(decoded.results, index_name, &built, prefix)
}

/// Indexes the fields of an upload: the outcome of each field, in order, and
/// a fresh index in `index_path` holding the accepted ones.
pub fn process_multipart(
    fields: &Vec<UploadField>,
    index_name: String,
    index_path: &str,
    prefix: &DownloadUrlPrefix,
) -> (r: IndexResponse)
    ensures
        answers(r, upload_outcomes(field_views(fields@)), index_name@, *prefix),
{
    let decoded = decode_upload(fields);
    let built = build_index(index_path, &decoded.documents);
    finish_index_request(decoded.results, index_name, &built, prefix)
}

/// The shapes in which an indexing request may come.
#[derive(Clone, Copy, Debug, PartialEq, Eq, Structural)]
pub enum RequestShape {
    /// A multi-field upload.
    Multipart,
    /// A batch of records.
    Json,
    /// Neither.
    Unsupported,
}

/// The shape announced by a request's media type.
pub open spec fn shape_of(content_type: Seq<char>) -> RequestShape {
    if content_type.len() >= 19 && content_type.subrange(0, 19) == "multipart/form-data"@ {
        RequestShape::Multipart
    } else if content_type == "application/json"@ {
        RequestShape::Json
    } else {
        RequestShape::Unsupported
    }
}

/// The shape of a request with the given media type.
pub fn request_shape(content_type: &str) -> (r: RequestShape)
    ensures
        r == shape_of(content_type@),
{
    proof {
        reveal_strlit("multipart/form-data");
    }
    let n = content_type.unicode_len();
    if n >= 19 && same_text(content_type.substring_char(0, 19), "multipart/form-data") {
        RequestShape::Multipart
    } else if same_text(content_type, "application/json") {
        RequestShape::Json
    } else {
        RequestShape::Unsupported
    }
}

/// Why a whole indexing request was turned away.
#[derive(Clone, Copy, Debug, PartialEq, Eq, Structural)]
pub enum Rejection {
    UnsupportedContentType,
    MalformedMultipart,
    MalformedJson,
}

/// The message that reports a rejection.
pub open spec fn rejection_message(why: Rejection) -> Seq<char> {
    match why {
        Rejection::UnsupportedContentType => "Unsupported content type"@,
        Rejection::MalformedMultipart => "Failed to parse multipart request"@,
        Rejection::MalformedJson => "Failed to parse JSON request"@,
    }
}

/// The answer to a request turned away as a whole: one failed outcome and no index.
pub fn rejected_request(why: Rejection) -> (r: IndexResponse)
    ensures
        outcome_views(r.results@) == seq![
            OutcomeView {
                filename: "unknown"@,
                status: OutcomeStatus::Failed,
                error: Some(rejection_message(why)),
            },
        ],
        r.index_name is None,
        r.download_url is None,
{
    let message = match why {
        Rejection::UnsupportedContentType => String::from_str("Unsupported content type"),
        Rejection::MalformedMultipart => String::from_str("Failed to parse multipart request"),
        Rejection::MalformedJson => String::from_str("Failed to parse JSON request"),
    };
    let mut results: Vec<DocumentResult> = Vec::new();
    results.push(
        DocumentResult {
            filename: String::from_str("unknown"),
            status: OutcomeStatus::Failed,
            error: Some(message),
        },
    );
    assert(outcome_views(results@) =~= seq![
        OutcomeView {
            filename: "unknown"@,
            status: OutcomeStatus::Failed,
            error: Some(rejection_message(why)),
        },
    ]);
    IndexResponse { results, index_name: None, download_url: None }
}

} // verus!
