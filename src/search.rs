//! The retrieval engine: a ranked keyword search over a named index.
use vstd::prelude::*;
use vstd::string::*;

use crate::document::{clone_opt, opt_view};
use crate::engine::{
    engine_error_text, fetch_document, index_reader, index_schema, open_index_in_dir, parse_query,
    query_error_text, query_parser, reader_searcher, schema_field, segment_count, stored_text,
    top_docs, MAX_TOP_K,
};

verus! {

/// The number of hits asked for when a query gives none.
pub fn default_top_k() -> (r: usize)
    ensures
        r == 5,
{
    5
}

/// A search request: the query text, the number of hits wanted, and the
/// name of the index to search.
pub struct QueryRequest {
    pub query: String,
    pub top_k: usize,
    pub index: String,
}

/// One ranked hit: the stored title and body of a document, and its score as
/// the bits of an IEEE 754 single-precision number.
pub struct SearchHit {
    pub title: String,
    pub content: String,
    pub score_bits: u32,
}

/// The mathematical value of a hit.
pub struct HitView {
    pub title: Seq<char>,
    pub content: Seq<char>,
    pub score_bits: u32,
}

impl View for SearchHit {
    type V = HitView;

    open spec fn view(&self) -> HitView {
        HitView { title: self.title@, content: self.content@, score_bits: self.score_bits }
    }
}

/// The views of a sequence of hits.
pub open spec fn hit_views(s: Seq<SearchHit>) -> Seq<HitView> {
    s.map_values(|h: SearchHit| h@)
}

/// The answer to a search: hits, or an error and no hits.
pub struct QueryResponse {
    pub hits: Vec<SearchHit>,
    pub error: Option<String>,
}

/// What the engine gave for one ranked document: its score (as bits) and
/// the text stored in its `title` and `body` fields, when there is some.
pub struct FoundDocument {
    pub score_bits: u32,
    pub title: Option<String>,
    pub body: Option<String>,
}

/// The mathematical value of a ranked document.
pub struct FoundView {
    pub score_bits: u32,
    pub title: Option<Seq<char>>,
    pub body: Option<Seq<char>>,
}

impl View for FoundDocument {
    type V = FoundView;

    open spec fn view(&self) -> FoundView {
        FoundView {
            score_bits: self.score_bits,
            title: opt_view(self.title),
            body: opt_view(self.body),
        }
    }
}

/// The views of a sequence of ranked documents.
pub open spec fn found_views(s: Seq<FoundDocument>) -> Seq<FoundView> {
    s.map_values(|f: FoundDocument| f@)
}

/// The placeholder for a field that a hit does not store.
pub open spec fn missing_field() -> Seq<char> {
    "Unknown"@
}

/// A stored value, or the placeholder.
pub open spec fn or_unknown(v: Option<Seq<char>>) -> Seq<char> {
    match v {
        Some(t) => t,
        None => missing_field(),
    }
}

/// The hit for a ranked document.
pub open spec fn hit_of(f: FoundView) -> HitView {
    HitView { title: or_unknown(f.title), content: or_unknown(f.body), score_bits: f.score_bits }
}

/// The hits for ranked documents: one each, in the engine's rank order.
pub open spec fn hits_of(fs: Seq<FoundView>) -> Seq<HitView> {
    fs.map_values(|f: FoundView| hit_of(f))
}

/// The stage of a search at which the engine failed.
#[derive(Clone, Copy, Debug, PartialEq, Eq, Structural)]
pub enum SearchStage {
    OpenIndex,
    OpenReader,
    MissingField,
    ParseQuery,
    Search,
    FetchDocument,
}

/// The start of the message of a failure at a stage.
pub open spec fn stage_prefix(stage: SearchStage) -> Seq<char> {
    match stage {
        SearchStage::OpenIndex => "Failed to open index: "@,
        SearchStage::OpenReader => "Failed to open a reader: "@,
        SearchStage::MissingField => "Index has no field: "@,
        SearchStage::ParseQuery => "Failed to parse query: "@,
        SearchStage::Search => "Search failed: "@,
        SearchStage::FetchDocument => "Failed to retrieve document: "@,
    }
}

/// The message of a failure at a stage, with the engine's own text.
pub open spec fn failure_message(stage: SearchStage, detail: Seq<char>) -> Seq<char> {
    stage_prefix(stage) + detail
}

/// A failure of the engine: the stage, and the engine's text.
pub struct SearchFailure {
    pub stage: SearchStage,
    pub detail: String,
}

/// The query text that scopes the raw query to the `body` field.
pub open spec fn body_scoped(raw: Seq<char>) -> Seq<char> {
    "body:"@ + raw
}

/// The message of a search on an index that does not exist.
pub open spec fn missing_index_message(index: Seq<char>) -> Seq<char> {
    "Index '"@ + index + "' does not exist"@
}

/// The numbers of hits that a search may ask for.
pub open spec fn valid_top_k(top_k: usize) -> bool {
    1 <= top_k <= MAX_TOP_K
}

/// The message of a search that asks for too few or too many hits.
pub open spec fn invalid_top_k_message() -> Seq<char> {
    "Invalid top_k: it must be between 1 and 1048576"@
}

/// The query text that scopes the raw query to the `body` field.
pub fn body_query_text(raw: &str) -> (r: String)
    ensures
        r@ == body_scoped(raw@),
{
    String::from_str("body:").concat(raw)
}

/// A stored value, or the placeholder when there is none.
pub fn stored_or_unknown(value: Option<String>) -> (r: String)
    ensures
        r@ == or_unknown(opt_view(value)),
{
    match value {
        Some(v) => v,
        None => String::from_str("Unknown"),
    }
}

/// The hit for a document with the given stored values and score.
pub fn make_hit(title: Option<String>, body: Option<String>, score_bits: u32) -> (r: SearchHit)
    ensures
        r@ == hit_of(FoundView { score_bits, title: opt_view(title), body: opt_view(body) }),
{
    SearchHit { title: stored_or_unknown(title), content: stored_or_unknown(body), score_bits }
}

/// The hits for the documents that the engine ranked: one each, in order.
pub fn hits_from(found: &Vec<FoundDocument>) -> (r: Vec<SearchHit>)
    ensures
        hit_views(r@) == hits_of(found_views(found@)),
{
    let mut hits: Vec<SearchHit> = Vec::new();
    let mut i: usize = 0;
    while i < found.len()
        invariant
            i <= found@.len(),
            hit_views(hits@) =~= hits_of(found_views(found@.subrange(0, i as int))),
        decreases found@.len() - i,
    {
        let f = &found[i];
        let hit = make_hit(clone_opt(&f.title), clone_opt(&f.body), f.score_bits);
        let ghost before = hits@;
        hits.push(hit);
        assert(hit_views(hits@) =~= hit_views(before).push(hit@));
        assert(found_views(found@.subrange(0, i + 1)) =~= found_views(
            found@.subrange(0, i as int),
        ).push(f@));
        i = i + 1;
    }
    assert(found@.subrange(0, i as int) =~= found@);
    hits
}

/// The message of a failure.
pub fn failure_text(failure: &SearchFailure) -> (r: String)
    ensures
        r@ == failure_message(failure.stage, failure.detail@),
{
    let prefix = match failure.stage {
        SearchStage::OpenIndex => "Failed to open index: ",
        SearchStage::OpenReader => "Failed to open a reader: ",
        SearchStage::MissingField => "Index has no field: ",
        SearchStage::ParseQuery => "Failed to parse query: ",
        SearchStage::Search => "Search failed: ",
        SearchStage::FetchDocument => "Failed to retrieve document: ",
    };
    String::from_str(prefix).concat(failure.detail.as_str())
}

/// The answer for what the engine gave: the hits of its ranked documents, or
/// no hits and the message of its failure.
pub fn search_answer(outcome: &Result<Vec<FoundDocument>, SearchFailure>) -> (r: QueryResponse)
    ensures
        match outcome {
            Ok(found) => r.error is None && hit_views(r.hits@) == hits_of(found_views(found@)),
            Err(f) => r.hits@.len() == 0 && (r.error matches Some(e) && e@ == failure_message(
                f.stage,
                f.detail@,
            )),
        },
{
    match outcome {
        Ok(found) => QueryResponse { hits: hits_from(found), error: None },
        Err(f) => QueryResponse { hits: Vec::new(), error: Some(failure_text(f)) },
    }
}

/// The answer to a search on an index that does not exist.
pub fn missing_index(index: &str) -> (r: QueryResponse)
    ensures
        r.hits@.len() == 0,
        r.error matches Some(e) && e@ == missing_index_message(index@),
{
    let message = String::from_str("Index '").concat(index).concat("' does not exist");
    QueryResponse { hits: Vec::new(), error: Some(message) }
}

/// The answer to a search that asks for too few or too many hits.
pub fn invalid_top_k() -> (r: QueryResponse)
    ensures
        r.hits@.len() == 0,
        r.error matches Some(e) && e@ == invalid_top_k_message(),
{
    QueryResponse {
        hits: Vec::new(),
        error: Some(String::from_str("Invalid top_k: it must be between 1 and 1048576")),
    }
}

/// What every answer to a search satisfies: either hits and no error, or an
/// error with a message and no hits; never more hits than asked for.
pub open spec fn well_formed_answer(r: QueryResponse, top_k: usize) -> bool {
    &&& r.hits@.len() <= top_k
    &&& (r.error matches Some(e) ==> r.hits@.len() == 0 && e@.len() > 0)
}

/// An answer that the engine decided: the hits of at most `top_k` ranked
/// documents, one each and in rank order, or no hits and the message of a
/// failure at one of the stages.
pub open spec fn engine_answer(r: QueryResponse, top_k: usize) -> bool {
    ||| (r.error is None && exists|fs: Seq<FoundView>|
        fs.len() <= top_k && #[trigger] hits_of(fs) == hit_views(r.hits@))
    ||| (r.hits@.len() == 0 && (r.error matches Some(e) && exists|st: SearchStage, d: Seq<char>|
        e@ == #[trigger] failure_message(st, d)))
}

/// The stage messages, the missing-index message and the `top_k` message
/// start differently, so no message of one kind is one of another.
pub proof fn lemma_messages_distinct(st: SearchStage, d: Seq<char>, index: Seq<char>)
    ensures
        failure_message(st, d) != missing_index_message(index),
        failure_message(st, d) != invalid_top_k_message(),
        invalid_top_k_message() != missing_index_message(index),
        failure_message(st, d).len() > 0,
{
    reveal_strlit("Failed to open index: ");
    reveal_strlit("Failed to open a reader: ");
    reveal_strlit("Index has no field: ");
    reveal_strlit("Failed to parse query: ");
    reveal_strlit("Search failed: ");
    reveal_strlit("Failed to retrieve document: ");
    reveal_strlit("Index '");
    reveal_strlit("Invalid top_k: it must be between 1 and 1048576");
    let m = missing_index_message(index);
    let f = failure_message(st, d);
    let v = invalid_top_k_message();
    assert(m[0] == 'I' && m[1] == 'n' && m[2] == 'd' && m[6] == '\'');
    assert(v[2] == 'v');
    assert(f[0] == stage_prefix(st)[0] && f[2] == stage_prefix(st)[2] && f[6]
        == stage_prefix(st)[6]);
}

/// Searches the index stored at `index_path` for the request's query;
/// `index_exists` tells whether that directory exists.
pub fn query_handler(request: &QueryRequest, index_path: &str, index_exists: bool) -> (r:
    QueryResponse)
    ensures
        well_formed_answer(r, request.top_k),
        !index_exists ==> r.hits@.len() == 0 && (r.error matches Some(e) && e@
            == missing_index_message(request.index@)),
        index_exists ==> !(r.error matches Some(e) && e@ == missing_index_message(
            request.index@,
        )),
        index_exists && !valid_top_k(request.top_k) ==> r.hits@.len() == 0 && (r.error matches Some(
            e,
        ) && e@ == invalid_top_k_message()),
        index_exists && valid_top_k(request.top_k) ==> engine_answer(r, request.top_k),
{
    if !index_exists {
        proof {
            reveal_strlit("Index '");
        }
        return missing_index(request.index.as_str());
    }
    if request.top_k == 0 || request.top_k > MAX_TOP_K {
        let r = invalid_top_k();
        proof {
            lemma_messages_distinct(SearchStage::Search, Seq::empty(), request.index@);
            reveal_strlit("Invalid top_k: it must be between 1 and 1048576");
        }
        return r;
    }
    match open_index_in_dir(index_path) {
        Ok(index) => search_index(&index, request),
        Err(e) => {
            let failure = SearchFailure {
                stage: SearchStage::OpenIndex,
                detail: engine_error_text(&e),
            };
            let r = search_answer(&Err(failure));
            proof {
                lemma_messages_distinct(failure.stage, failure.detail@, request.index@);
                assert(r.error->Some_0@ == failure_message(failure.stage, failure.detail@));
            }
            r
        },
    }
}

/// Searches `index` for the request's query, scoped to the `body` field, and
/// returns the hits of the best `top_k` documents in rank order.
pub fn search_index(index: &tantivy::Index, request: &QueryRequest) -> (r: QueryResponse)
    ensures
        well_formed_answer(r, request.top_k),
        !valid_top_k(request.top_k) ==> r.hits@.len() == 0 && (r.error matches Some(e) && e@
            == invalid_top_k_message()),
        valid_top_k(request.top_k) ==> engine_answer(r, request.top_k),
        forall|index_name: Seq<char>|
            !(r.error matches Some(e) && e@ == #[trigger] missing_index_message(index_name)),
{
    if request.top_k == 0 || request.top_k > MAX_TOP_K {
        let r = invalid_top_k();
        proof {
            reveal_strlit("Invalid top_k: it must be between 1 and 1048576");
            assert forall|index_name: Seq<char>|
                !(r.error matches Some(e) && e@ == #[trigger] missing_index_message(
                    index_name,
                )) by {
                lemma_messages_distinct(SearchStage::Search, Seq::empty(), index_name);
            }
        }
        return r;
    }
    let outcome = run_search(index, request);
    let r = search_answer(&outcome);
    proof {
        match outcome {
            Ok(found) => {
                assert(hits_of(found_views(found@)) == hit_views(r.hits@));
                assert(found_views(found@).len() <= request.top_k);
            },
            Err(f) => {
                assert(r.error->Some_0@ == failure_message(f.stage, f.detail@));
                assert forall|index_name: Seq<char>|
                    !(r.error matches Some(e) && e@ == #[trigger] missing_index_message(
                        index_name,
                    )) by {
                    lemma_messages_distinct(f.stage, f.detail@, index_name);
                }
                lemma_messages_distinct(f.stage, f.detail@, Seq::empty());
            },
        }
    }
    r
}

/// Runs the query on the engine: the stored title and body of each ranked
/// document, in rank order, or the stage at which the engine failed.
fn run_search(index: &tantivy::Index, request: &QueryRequest) -> (r: Result<
    Vec<FoundDocument>,
    SearchFailure,
>)
    requires
        valid_top_k(request.top_k),
    ensures
        r matches Ok(found) ==> found@.len() <= request.top_k,
{
    let reader = match index_reader(index) {
        Ok(reader) => reader,
        Err(e) => {
            return Err(SearchFailure { stage: SearchStage::OpenReader, detail: engine_error_text(&e) });
        },
    };
    let searcher = reader_searcher(&reader);
    let schema = index_schema(index);
    let title = match schema_field(&schema, "title") {
        Ok(f) => f,
        Err(e) => {
            return Err(SearchFailure { stage: SearchStage::MissingField, detail: engine_error_text(&e) });
        },
    };
    let body = match schema_field(&schema, "body") {
        Ok(f) => f,
        Err(e) => {
            return Err(SearchFailure { stage: SearchStage::MissingField, detail: engine_error_text(&e) });
        },
    };
    let mut default_fields = Vec::new();
    default_fields.push(title);
    default_fields.push(body);
    let parser = query_parser(index, default_fields);
    let text = body_query_text(request.query.as_str());
    let query = match parse_query(&parser, text.as_str()) {
        Ok(q) => q,
        Err(e) => {
            return Err(SearchFailure { stage: SearchStage::ParseQuery, detail: query_error_text(&e) });
        },
    };
    let ranked = match top_docs(&searcher, &query, request.top_k) {
        Ok(v) => v,
        Err(e) => {
            return Err(SearchFailure { stage: SearchStage::Search, detail: engine_error_text(&e) });
        },
    };
    let mut found: Vec<FoundDocument> = Vec::new();
    let mut i: usize = 0;
    while i < ranked.len()
        invariant
            i <= ranked@.len(),
            ranked@.len() <= request.top_k,
            found@.len() == i,
            forall|j: int|
                0 <= j < ranked@.len() ==> (#[trigger] ranked@[j]).1.segment_ord < segment_count(
                    searcher,
                ),
        decreases ranked@.len() - i,
    {
        let (score_bits, address) = ranked[i];
        let doc = match fetch_document(&searcher, address) {
            Ok(d) => d,
            Err(e) => {
                return Err(
                    SearchFailure { stage: SearchStage::FetchDocument, detail: engine_error_text(&e) },
                );
            },
        };
        found.push(
            FoundDocument {
                score_bits,
                title: stored_text(&doc, title),
                body: stored_text(&doc, body),
            },
        );
        i = i + 1;
    }
    Ok(found)
}

} // verus!
