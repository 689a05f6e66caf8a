use vstd::prelude::*;
use vstd::string::*;
use vstd::utf8::{decode_utf8, valid_utf8};

use crate::document::{
    content_outcome, document_views, empty_content_message, failed, opt_view, outcome_for_content,
    outcome_views, untitled, DocumentInput, DocumentResult, InputView, OutcomeStatus, OutcomeView,
};
use crate::text::{is_blank, same_text};

verus! {

/// The name reported for an upload field without a file name.
pub open spec fn unnamed_field() -> Seq<char> {
    "unknown"@
}

/// The media type assumed for an upload field that declares none.
pub open spec fn generic_binary() -> Seq<char> {
    "application/octet-stream"@
}

/// The message of an upload field whose media type is not admitted.
pub open spec fn unsupported_type_message() -> Seq<char> {
    "Unsupported file type. Only .txt and .md files are allowed"@
}

/// The message of an upload field whose bytes are not UTF-8.
pub open spec fn invalid_utf8_message() -> Seq<char> {
    "Invalid UTF-8 content"@
}

/// The start of the message of an upload field that could not be read.
pub open spec fn read_failure_prefix() -> Seq<char> {
    "Failed to read file: "@
}

/// The media types that an upload field may declare.
pub open spec fn is_supported_media_type(t: Seq<char>) -> bool {
    t == "text/plain"@ || t == "text/markdown"@ || t == generic_binary()
}

// ---- batch shape ----

/// The name under which a batch item is reported.
pub open spec fn batch_item_name(d: InputView) -> Seq<char> {
    match d.title {
        Some(t) => t,
        None => untitled(),
    }
}

/// The outcome of one batch item.
pub open spec fn batch_outcome(d: InputView) -> OutcomeView {
    content_outcome(batch_item_name(d), d.content)
}

/// The outcomes of a batch, item by item.
pub open spec fn batch_outcomes(ds: Seq<InputView>) -> Seq<OutcomeView> {
    ds.map_values(|d: InputView| batch_outcome(d))
}

/// The items of a batch that go to the index, in order: those with content.
pub open spec fn batch_documents(ds: Seq<InputView>) -> Seq<InputView>
    decreases ds.len(),
{
    if ds.len() == 0 {
        Seq::empty()
    } else if is_blank(ds.last().content) {
        batch_documents(ds.drop_last())
    } else {
        batch_documents(ds.drop_last()).push(ds.last())
    }
}

/// The per-item outcomes and the documents to index, both in submission order.
pub struct DecodedBatch {
    pub results: Vec<DocumentResult>,
    pub documents: Vec<DocumentInput>,
}

/// Decodes a batch of records into outcomes and the documents to index.
pub fn decode_batch(items: &Vec<DocumentInput>) -> (r: DecodedBatch)
    ensures
        outcome_views(r.results@) == batch_outcomes(document_views(items@)),
        document_views(r.documents@) == batch_documents(document_views(items@)),
{
    let mut results: Vec<DocumentResult> = Vec::new();
    let mut documents: Vec<DocumentInput> = Vec::new();
    let mut i: usize = 0;
    while i < items.len()
        invariant
            i <= items@.len(),
            outcome_views(results@) =~= batch_outcomes(document_views(items@.subrange(0, i as int))),
            document_views(documents@) == batch_documents(
                document_views(items@.subrange(0, i as int)),
            ),
        decreases items@.len() - i,
    {
        let item = &items[i];
        let name = match &item.title {
            Some(t) => t.clone(),
            None => String::from_str("Unknown"),
        };
        let outcome = outcome_for_content(name, item.content.as_str());
        let keep = outcome.status == OutcomeStatus::Indexed;
        proof {
            let pre = document_views(items@.subrange(0, i as int));
            let post = document_views(items@.subrange(0, i + 1));
            assert(post.drop_last() =~= pre);
            assert(post.last() == item@);
            assert(outcome@ == batch_outcome(item@));
        }
        let ghost before = results@;
        results.push(outcome);
        assert(outcome_views(results@) =~= outcome_views(before).push(outcome@));
        assert(batch_outcomes(document_views(items@.subrange(0, i + 1)))
            =~= batch_outcomes(document_views(items@.subrange(0, i as int))).push(batch_outcome(item@)));
        if keep {
            documents.push(item.duplicate());
            assert(document_views(documents@) =~= batch_documents(
                document_views(items@.subrange(0, i + 1)),
            ));
        }
        i = i + 1;
    }
    assert(items@.subrange(0, i as int) =~= items@);
    DecodedBatch { results, documents }
}

// ---- upload shape ----

/// One field of an upload, as read: its file name and media type when given,
/// and its bytes, or the text of the error met while reading them.
pub struct UploadField {
    pub filename: Option<String>,
    pub content_type: Option<String>,
    pub data: Result<Vec<u8>, String>,
}

/// The mathematical value of an upload field.
pub struct FieldView {
    pub filename: Option<Seq<char>>,
    pub content_type: Option<Seq<char>>,
    pub data: Result<Seq<u8>, Seq<char>>,
}

impl View for UploadField {
    type V = FieldView;

    open spec fn view(&self) -> FieldView {
        FieldView {
            filename: opt_view(self.filename),
            content_type: opt_view(self.content_type),
            data: match self.data {
                Ok(b) => Ok(b@),
                Err(e) => Err(e@),
            },
        }
    }
}

/// The name under which a field is reported.
pub open spec fn field_name(f: FieldView) -> Seq<char> {
    match f.filename {
        Some(n) => n,
        None => unnamed_field(),
    }
}

/// The media type of a field.
pub open spec fn field_media_type(f: FieldView) -> Seq<char> {
    match f.content_type {
        Some(t) => t,
        None => generic_binary(),
    }
}

/// The outcome of an admitted field's data.
pub open spec fn data_outcome(name: Seq<char>, data: Result<Seq<u8>, Seq<char>>) -> OutcomeView {
    match data {
        Err(e) => failed(name, read_failure_prefix() + e),
        Ok(b) => if valid_utf8(b) {
            content_outcome(name, decode_utf8(b))
        } else {
            failed(name, invalid_utf8_message())
        },
    }
}

/// The outcome of one upload field.
pub open spec fn field_outcome(f: FieldView) -> OutcomeView {
    if is_supported_media_type(field_media_type(f)) {
        data_outcome(field_name(f), f.data)
    } else {
        failed(field_name(f), unsupported_type_message())
    }
}

/// The document that a field contributes, if it is accepted.
pub open spec fn field_document(f: FieldView) -> Option<InputView> {
    if field_outcome(f).status == OutcomeStatus::Indexed {
        match f.data {
            Ok(b) => Some(InputView { content: decode_utf8(b), title: None }),
            Err(_) => None,
        }
    } else {
        None
    }
}

/// The outcomes of an upload, field by field.
pub open spec fn upload_outcomes(fs: Seq<FieldView>) -> Seq<OutcomeView> {
    fs.map_values(|f: FieldView| field_outcome(f))
}

/// The documents that an upload contributes, in field order.
pub open spec fn upload_documents(fs: Seq<FieldView>) -> Seq<InputView>
    decreases fs.len(),
{
    if fs.len() == 0 {
        Seq::empty()
    } else {
        match field_document(fs.last()) {
            Some(d) => upload_documents(fs.drop_last()).push(d),
            None => upload_documents(fs.drop_last()),
        }
    }
}

/// The views of a sequence of upload fields.
pub open spec fn field_views(s: Seq<UploadField>) -> Seq<FieldView> {
    s.map_values(|f: UploadField| f@)
}

/// Relies on `std::str::from_utf8`: the bytes are accepted exactly when they are
/// well-formed UTF-8, and then decode to the text they encode.
#[verifier::external_body]
fn utf8_text(b: &[u8]) -> (r: Option<String>)
    ensures
        r is Some <==> valid_utf8(b@),
        r matches Some(s) ==> s@ == decode_utf8(b@),
{
    std::str::from_utf8(b).ok().map(|s| s.to_string())
}

/// Whether an upload field's media type is admitted.
pub fn is_valid_content_type(content_type: &str) -> (r: bool)
    ensures
        r == is_supported_media_type(content_type@),
{
    same_text(content_type, "text/plain") || same_text(content_type, "text/markdown")
        || same_text(content_type, "application/octet-stream")
}

/// Decodes the data of an admitted field: its outcome, and the document it
/// contributes when it is accepted.
pub fn process_field_content(data: &Result<Vec<u8>, String>, filename: String) -> (r: (
    DocumentResult,
    Option<DocumentInput>,
))
    ensures
        r.0@ == data_outcome(
            filename@,
            match data {
                Ok(b) => Ok(b@),
                Err(e) => Err(e@),
            },
        ),
        r.1 is Some <==> r.0.status == OutcomeStatus::Indexed,
        r.1 matches Some(d) ==> (data matches Ok(b) && d@ == InputView {
            content: decode_utf8(b@),
            title: None,
        }),
{
    match data {
        Err(e) => {
            let message = String::from_str("Failed to read file: ").concat(e.as_str());
            (
                DocumentResult {
                    filename,
                    status: OutcomeStatus::Failed,
                    error: Some(message),
                },
                None,
            )
        },
        Ok(bytes) => match utf8_text(bytes.as_slice()) {
            None => (
                DocumentResult {
                    filename,
                    status: OutcomeStatus::Failed,
                    error: Some(String::from_str("Invalid UTF-8 content")),
                },
                None,
            ),
            Some(content) => {
                let outcome = outcome_for_content(filename, content.as_str());
                if outcome.status == OutcomeStatus::Indexed {
                    (outcome, Some(DocumentInput { content, title: None }))
                } else {
                    (outcome, None)
                }
            },
        },
    }
}

/// Decodes one upload field.
pub fn decode_field(field: &UploadField) -> (r: (DocumentResult, Option<DocumentInput>))
    ensures
        r.0@ == field_outcome(field@),
        opt_input_view(r.1) == field_document(field@),
{
    let filename = match &field.filename {
        Some(n) => n.clone(),
        None => String::from_str("unknown"),
    };
    let admitted = match &field.content_type {
        Some(t) => is_valid_content_type(t.as_str()),
        None => true,
    };
    proof {
        reveal_strlit("application/octet-stream");
    }
    if !admitted {
        (
            DocumentResult {
                filename,
                status: OutcomeStatus::Failed,
                error: Some(
                    String::from_str("Unsupported file type. Only .txt and .md files are allowed"),
                ),
            },
            None,
        )
    } else {
        process_field_content(&field.data, filename)
    }
}

/// The view of an optional document.
pub open spec fn opt_input_view(d: Option<DocumentInput>) -> Option<InputView> {
    match d {
        Some(x) => Some(x@),
        None => None,
    }
}

/// Decodes the fields of an upload into outcomes and the documents to index.
pub fn decode_upload(fields: &Vec<UploadField>) -> (r: DecodedBatch)
    ensures
        outcome_views(r.results@) == upload_outcomes(field_views(fields@)),
        document_views(r.documents@) == upload_documents(field_views(fields@)),
{
    let mut results: Vec<DocumentResult> = Vec::new();
    let mut documents: Vec<DocumentInput> = Vec::new();
    let mut i: usize = 0;
    while i < fields.len()
        invariant
            i <= fields@.len(),
            outcome_views(results@) =~= upload_outcomes(field_views(fields@.subrange(0, i as int))),
            document_views(documents@) == upload_documents(
                field_views(fields@.subrange(0, i as int)),
            ),
        decreases fields@.len() - i,
    {
        let (outcome, doc) = decode_field(&fields[i]);
        proof {
            let pre = field_views(fields@.subrange(0, i as int));
            let post = field_views(fields@.subrange(0, i + 1));
            assert(post.drop_last() =~= pre);
            assert(post.last() == fields@[i as int]@);
        }
        let ghost before = results@;
        results.push(outcome);
        assert(outcome_views(results@) =~= outcome_views(before).push(outcome@));
        assert(upload_outcomes(field_views(fields@.subrange(0, i + 1)))
            =~= upload_outcomes(field_views(fields@.subrange(0, i as int))).push(field_outcome(fields@[i as int]@)));
        match doc {
            Some(d) => {
                documents.push(d);
                assert(document_views(documents@) =~= upload_documents(
                    field_views(fields@.subrange(0, i + 1)),
                ));
            },
            None => {},
        }
        i = i + 1;
    }
    assert(fields@.subrange(0, i as int) =~= fields@);
    DecodedBatch { results, documents }
}

// ---- laws ----

/// Each submitted item, in either shape, has exactly one outcome, at the item's
/// own position and under the item's own name.
pub proof fn lemma_outcome_per_item(items: Seq<InputView>, fields: Seq<FieldView>)
    ensures
        batch_outcomes(items).len() == items.len(),
        forall|i: int|
            0 <= i < items.len() ==> #[trigger] batch_outcomes(items)[i]
                == batch_outcome(items[i]) && batch_outcome(items[i]).filename == batch_item_name(
                items[i],
            ),
        upload_outcomes(fields).len() == fields.len(),
        forall|i: int|
            0 <= i < fields.len() ==> #[trigger] upload_outcomes(fields)[i]
                == field_outcome(fields[i]) && field_outcome(fields[i]).filename == field_name(
                fields[i],
            ),
{
}

/// Blank content is rejected with the same message whatever the shape of the
/// submission: a batch record, or an admitted upload field that decodes as text.
pub proof fn lemma_blank_content_fails(d: InputView, f: FieldView)
    ensures
        is_blank(d.content) ==> batch_outcome(d) == failed(
            batch_item_name(d),
            empty_content_message(),
        ),
        (is_supported_media_type(field_media_type(f)) && f.data is Ok && valid_utf8(f.data->Ok_0)
            && is_blank(decode_utf8(f.data->Ok_0))) ==> field_outcome(f) == failed(
            field_name(f),
            empty_content_message(),
        ),
{
}

/// A field whose media type is not admitted contributes no document: every
/// document of an upload comes from an admitted field.
pub proof fn lemma_unsupported_fields_excluded(fs: Seq<FieldView>)
    ensures
        forall|i: int|
            0 <= i < fs.len() && !is_supported_media_type(field_media_type(fs[i]))
                ==> #[trigger] field_document(fs[i]) is None,
        forall|j: int|
            #![trigger upload_documents(fs)[j]]
            0 <= j < upload_documents(fs).len() ==> exists|i: int|
                0 <= i < fs.len() && is_supported_media_type(field_media_type(fs[i]))
                    && #[trigger] field_document(fs[i]) == Some(upload_documents(fs)[j]),
    decreases fs.len(),
{
    if fs.len() > 0 {
        let init = fs.drop_last();
        lemma_unsupported_fields_excluded(init);
        let docs = upload_documents(fs);
        assert forall|j: int| #![trigger docs[j]] 0 <= j < docs.len() implies exists|i: int|
            0 <= i < fs.len() && is_supported_media_type(field_media_type(fs[i]))
                && #[trigger] field_document(fs[i]) == Some(docs[j]) by {
            if j < upload_documents(init).len() {
                let i = choose|i: int|
                    0 <= i < init.len() && is_supported_media_type(field_media_type(init[i]))
                        && #[trigger] field_document(init[i]) == Some(upload_documents(init)[j]);
                assert(init[i] == fs[i]);
            } else {
                assert(fs[fs.len() - 1] == fs.last());
            }
        }
    }
}

} // verus!
