//! The full-text engine as the library sees it: tantivy's types, and one
//! trusted wrapper for each of its functions that the library calls.
use vstd::prelude::*;

verus! {

#[verifier::external_type_specification]
#[verifier::external_body]
pub struct ExIndex(tantivy::Index);

/// An index writer. tantivy's `IndexWriter<D: Document>` cannot be declared
/// here (the bound of its parameter is refused), so it is held in this opaque
/// struct and reached only through the wrappers below.
#[verifier::external_body]
pub(crate) struct DocumentWriter {
    writer: tantivy::IndexWriter<tantivy::TantivyDocument>,
}

#[verifier::external_type_specification]
#[verifier::external_body]
pub struct ExIndexReader(tantivy::IndexReader);

#[verifier::external_type_specification]
#[verifier::external_body]
pub struct ExSearcher(tantivy::Searcher);

#[verifier::external_type_specification]
#[verifier::external_body]
pub struct ExTantivyDocument(tantivy::TantivyDocument);

#[verifier::external_type_specification]
#[verifier::external_body]
pub struct ExTantivyError(tantivy::TantivyError);

#[verifier::external_type_specification]
#[verifier::external_body]
pub struct ExSchema(tantivy::schema::Schema);

#[verifier::external_type_specification]
#[verifier::external_body]
pub struct ExSchemaBuilder(tantivy::schema::SchemaBuilder);

#[verifier::external_type_specification]
#[verifier::external_body]
pub struct ExField(tantivy::schema::Field);

#[verifier::external_type_specification]
#[verifier::external_body]
pub struct ExQueryParser(tantivy::query::QueryParser);

#[verifier::external_type_specification]
#[verifier::external_body]
pub struct ExQueryParserError(tantivy::query::QueryParserError);

/// The address of a document in the segments of a searcher.
#[verifier::external_type_specification]
pub struct ExDocAddress(tantivy::DocAddress);

/// A parsed query. Its value is a `Box<dyn tantivy::query::Query>`, a trait
/// object that verified code cannot name, so it is only carried from the
/// parser to the search.
#[verifier::external_body]
pub(crate) struct ParsedQuery {
    query: Box<dyn tantivy::query::Query>,
}

/// The names of the fields declared so far in a schema builder, in order.
pub uninterp spec fn declared_fields(b: tantivy::schema::SchemaBuilder) -> Seq<Seq<char>>;

/// The names of the fields of a schema, in order.
pub uninterp spec fn schema_fields(s: tantivy::schema::Schema) -> Seq<Seq<char>>;

/// The largest number of hits that a search may ask for. tantivy's top-n
/// collector reserves a buffer of twice the limit before it reads a single
/// document (`TopNComputer::new`), so the limit is kept within what can be
/// reserved without overflow.
pub const MAX_TOP_K: usize = 1_048_576;

/// The number of segments that a searcher reads.
pub uninterp spec fn segment_count(s: tantivy::Searcher) -> nat;

/// Relies on `Schema::builder`: a builder with no field declared.
#[verifier::external_body]
pub(crate) fn schema_builder() -> (r: tantivy::schema::SchemaBuilder)
    ensures
        declared_fields(r) == Seq::<Seq<char>>::empty(),
{
    tantivy::schema::Schema::builder()
}

/// Relies on `SchemaBuilder::add_text_field` with options `TEXT | STORED`:
/// declares a tokenized, stored text field. It panics on a name already
/// declared, and `FieldEntry::new` on an invalid one (empty, or starting with
/// `-`); the precondition rules both out.
#[verifier::external_body]
pub(crate) fn add_stored_text_field(b: &mut tantivy::schema::SchemaBuilder, name: &str) -> (r:
    tantivy::schema::Field)
    requires
        name@.len() > 0,
        name@[0] != '-',
        !declared_fields(*old(b)).contains(name@),
    ensures
        declared_fields(*final(b)) == declared_fields(*old(b)).push(name@),
{
    b.add_text_field(name, tantivy::schema::TEXT | tantivy::schema::STORED)
}

/// Relies on `SchemaBuilder::build`: a schema with the declared fields.
#[verifier::external_body]
pub(crate) fn build_schema(b: tantivy::schema::SchemaBuilder) -> (r: tantivy::schema::Schema)
    ensures
        schema_fields(r) == declared_fields(b),
{
    b.build()
}

/// Relies on `Index::create_in_dir`: a new index in an existing directory.
#[verifier::external_body]
pub(crate) fn create_index_in_dir(path: &str, schema: tantivy::schema::Schema) -> (r: Result<
    tantivy::Index,
    tantivy::TantivyError,
>) {
    tantivy::Index::create_in_dir(path, schema)
}

/// Relies on `Index::open_in_dir`.
#[verifier::external_body]
pub(crate) fn open_index_in_dir(path: &str) -> (r: Result<tantivy::Index, tantivy::TantivyError>) {
    tantivy::Index::open_in_dir(path)
}

/// Relies on `Index::writer`: a writer that buffers up to the given number of
/// bytes before it flushes a segment.
#[verifier::external_body]
pub(crate) fn open_writer(index: &tantivy::Index, memory_budget: usize) -> (r: Result<
    DocumentWriter,
    tantivy::TantivyError,
>) {
    index.writer(memory_budget).map(|writer| DocumentWriter { writer })
}

/// Relies on `TantivyDocument::new`: a document without values.
#[verifier::external_body]
pub(crate) fn new_document() -> (r: tantivy::TantivyDocument) {
    tantivy::TantivyDocument::new()
}

/// Relies on `TantivyDocument::add_text`: adds a text value to a field.
#[verifier::external_body]
pub(crate) fn add_text(doc: &mut tantivy::TantivyDocument, field: tantivy::schema::Field, text: &str) {
    doc.add_text(field, text)
}

/// Relies on `IndexWriter::add_document`: queues a document for the next commit.
#[verifier::external_body]
pub(crate) fn add_document(
    writer: &DocumentWriter,
    doc: tantivy::TantivyDocument,
) -> (r: Result<u64, tantivy::TantivyError>) {
    writer.writer.add_document(doc)
}

/// Relies on `IndexWriter::commit`: makes the queued documents durable.
#[verifier::external_body]
pub(crate) fn commit(writer: &mut DocumentWriter) -> (r: Result<u64, tantivy::TantivyError>) {
    writer.writer.commit()
}

/// Relies on `Index::reader`: a reader that reloads after each commit, with a delay.
#[verifier::external_body]
pub(crate) fn index_reader(index: &tantivy::Index) -> (r: Result<
    tantivy::IndexReader,
    tantivy::TantivyError,
>) {
    index.reader()
}

/// Relies on `IndexReader::searcher`.
#[verifier::external_body]
pub(crate) fn reader_searcher(reader: &tantivy::IndexReader) -> (r: tantivy::Searcher) {
    reader.searcher()
}

/// Relies on `Index::schema`.
#[verifier::external_body]
pub(crate) fn index_schema(index: &tantivy::Index) -> (r: tantivy::schema::Schema) {
    index.schema()
}

/// Relies on `Schema::get_field`: the field of that name, or an error.
#[verifier::external_body]
pub(crate) fn schema_field(schema: &tantivy::schema::Schema, name: &str) -> (r: Result<
    tantivy::schema::Field,
    tantivy::TantivyError,
>) {
    schema.get_field(name)
}

/// Relies on `QueryParser::for_index`: a parser whose bare terms go to the given fields.
#[verifier::external_body]
pub(crate) fn query_parser(index: &tantivy::Index, fields: Vec<tantivy::schema::Field>) -> (r:
    tantivy::query::QueryParser) {
    tantivy::query::QueryParser::for_index(index, fields)
}

/// Relies on `QueryParser::parse_query`.
#[verifier::external_body]
pub(crate) fn parse_query(parser: &tantivy::query::QueryParser, text: &str) -> (r: Result<
    ParsedQuery,
    tantivy::query::QueryParserError,
>) {
    parser.parse_query(text).map(|query| ParsedQuery { query })
}

/// Relies on `Searcher::search` with the collector `TopDocs::with_limit`: at
/// most `limit` documents, each with its score (here as the bits of the
/// `f32`), and each in one of the searcher's segments. `with_limit` panics on
/// a limit of zero, and the collector reserves twice the limit up front; the
/// precondition keeps the limit between one and `MAX_TOP_K`.
#[verifier::external_body]
pub(crate) fn top_docs(searcher: &tantivy::Searcher, query: &ParsedQuery, limit: usize) -> (r: Result<
    Vec<(u32, tantivy::DocAddress)>,
    tantivy::TantivyError,
>)
    requires
        1 <= limit <= MAX_TOP_K,
    ensures
        r matches Ok(v) ==> v@.len() <= limit && forall|i: int|
            0 <= i < v@.len() ==> (#[trigger] v@[i]).1.segment_ord < segment_count(*searcher),
{
    let collector = tantivy::collector::TopDocs::with_limit(limit);
    searcher.search(query.query.as_ref(), &collector).map(
        |docs| docs.into_iter().map(|(score, address)| (score.to_bits(), address)).collect(),
    )
}

/// Relies on `Searcher::doc`: the stored fields of a document. It indexes the
/// searcher's segments by the address, which the precondition keeps in range.
#[verifier::external_body]
pub(crate) fn fetch_document(searcher: &tantivy::Searcher, address: tantivy::DocAddress) -> (r: Result<
    tantivy::TantivyDocument,
    tantivy::TantivyError,
>)
    requires
        address.segment_ord < segment_count(*searcher),
{
    searcher.doc::<tantivy::TantivyDocument>(address)
}

/// Relies on `TantivyDocument::get_first`: the first value stored for the
/// field, when it is a text.
#[verifier::external_body]
pub(crate) fn stored_text(doc: &tantivy::TantivyDocument, field: tantivy::schema::Field) -> (r: Option<
    String,
>) {
    match doc.get_first(field) {
        Some(tantivy::schema::OwnedValue::Str(s)) => Some(s.clone()),
        _ => None,
    }
}

/// Relies on the `Display` impl of `tantivy::TantivyError`.
#[verifier::external_body]
pub(crate) fn engine_error_text(e: &tantivy::TantivyError) -> (r: String) {
    e.to_string()
}

/// Relies on the `Display` impl of `tantivy::query::QueryParserError`.
#[verifier::external_body]
pub(crate) fn query_error_text(e: &tantivy::query::QueryParserError) -> (r: String) {
    e.to_string()
}

} // verus!
