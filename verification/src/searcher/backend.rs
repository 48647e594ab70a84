use vstd::prelude::*;
use tantivy::collector::TopDocs;
use tantivy::directory::MmapDirectory;
use tantivy::query::{Query, QueryParser, QueryParserError};
use tantivy::schema::{Field, Schema, SchemaBuilder, TextOptions, Value, INDEXED, STORED, TEXT};
use tantivy::{DateTime, DocAddress, Index, IndexReader, IndexWriter, Searcher, TantivyError};
use crate::searcher::schema::{FieldKind, FieldValue, TextKind};

verus! {

#[verifier::external_type_specification]
#[verifier::external_body]
pub struct ExSchemaBuilder(tantivy::schema::SchemaBuilder);

#[verifier::external_type_specification]
#[verifier::external_body]
pub struct ExSchema(tantivy::schema::Schema);

#[verifier::external_type_specification]
#[verifier::external_body]
pub struct ExMmapDirectory(tantivy::directory::MmapDirectory);

#[verifier::external_type_specification]
#[verifier::external_body]
pub struct ExIndex(tantivy::Index);

#[verifier::external_type_specification]
#[verifier::external_body]
pub struct ExIndexWriter(tantivy::IndexWriter);

#[verifier::external_type_specification]
#[verifier::external_body]
pub struct ExIndexReader(tantivy::IndexReader);

#[verifier::external_type_specification]
#[verifier::external_body]
pub struct ExSearcher(tantivy::Searcher);

#[verifier::external_type_specification]
#[verifier::external_body]
pub struct ExTantivyError(tantivy::TantivyError);

#[verifier::external_type_specification]
#[verifier::external_body]
pub struct ExQueryParserError(tantivy::query::QueryParserError);

/// A document in the form that the index takes in and hands out: a list of
/// entries, each a field's number and a value.
#[verifier::external_body]
pub struct IndexDocument {
    entries: tantivy::Document,
}

/// A query as the index's parser hands it out. The parser gives a trait
/// object, which cannot be shown to the verifier; it is carried from the
/// parser to the search and never looked into.
#[verifier::external_body]
pub struct ParsedQuery {
    query: Box<dyn Query>,
}

/// The fields that a schema under construction holds so far, in the order
/// in which they were added: each with its name and kind.
pub uninterp spec fn builder_fields(builder: SchemaBuilder) -> Seq<(Seq<char>, FieldKind)>;

/// The fields of a finished schema, in the order of their numbers.
pub uninterp spec fn schema_fields(schema: Schema) -> Seq<(Seq<char>, FieldKind)>;

/// The fields of the schema that an index was made with.
pub uninterp spec fn index_fields(index: Index) -> Seq<(Seq<char>, FieldKind)>;

/// The entries of an index document, in the order in which they were added:
/// each with the number of its field and its value.
pub uninterp spec fn document_entries(document: IndexDocument) -> Seq<(u32, FieldValue)>;

/// The addresses (segment, place in the segment) of the documents that a
/// snapshot of the index can hand out.
pub uninterp spec fn snapshot_addresses(searcher: Searcher) -> Set<(u32, u32)>;

/// Whether `QueryParser::parse_query` takes a text for a query, where the
/// parser was made for an index with these fields and the stock tokenizers,
/// and looks for bare words in the fields of these numbers.
pub uninterp spec fn query_accepted(
    fields: Seq<(Seq<char>, FieldKind)>,
    default_fields: Seq<u32>,
    text: Seq<char>,
) -> bool;

/// A name that a schema with these fields takes for one more field: not
/// empty, not starting with a hyphen, and not in use.
pub open spec fn fresh_field_name(fields: Seq<(Seq<char>, FieldKind)>, name: Seq<char>) -> bool {
    &&& name.len() > 0
    &&& name[0] != '-'
    &&& forall|i: int| 0 <= i < fields.len() ==> (#[trigger] fields[i]).0 != name
}

/// The value of the first entry for a field, if the field has an entry.
pub open spec fn first_value(entries: Seq<(u32, FieldValue)>, field: u32) -> Option<FieldValue>
    decreases entries.len(),
{
    if entries.len() == 0 {
        None
    } else if entries[0].0 == field {
        Some(entries[0].1)
    } else {
        first_value(entries.drop_first(), field)
    }
}

/// The largest number of milliseconds that the index's date type can hold:
/// it counts nanoseconds in 64 bits.
pub const MAX_DATE_MILLIS: i64 = 9_223_372_036_854;

/// `Schema::builder`: a schema under construction, without fields.
#[verifier::external_body]
pub(crate) fn schema_builder() -> (builder: SchemaBuilder)
    ensures
        builder_fields(builder) == Seq::<(Seq<char>, FieldKind)>::empty(),
{
    Schema::builder()
}

/// `SchemaBuilder::add_text_field`, with the options that the kind stands
/// for: `TEXT | STORED`, `TEXT` or `STORED`. The field goes to the end and
/// its number is its place. The call panics on a name that is empty, starts
/// with a hyphen or is in use, which the precondition leaves out.
#[verifier::external_body]
pub(crate) fn add_text_field(
    builder: &mut SchemaBuilder,
    name: &str,
    kind: TextKind,
) -> (field: u32)
    requires
        fresh_field_name(builder_fields(*old(builder)), name@),
        builder_fields(*old(builder)).len() < u32::MAX,
    ensures
        builder_fields(*final(builder)) == builder_fields(*old(builder)).push(
            (name@, FieldKind::Text(kind)),
        ),
        field == builder_fields(*old(builder)).len(),
{
    let options = match kind {
        TextKind::SearchedAndStored => TEXT | STORED,
        TextKind::Searched => TEXT,
        TextKind::Stored => TextOptions::from(STORED),
    };
    builder.add_text_field(name, options).field_id()
}

/// `SchemaBuilder::add_date_field` with the option `INDEXED`. The field goes
/// to the end and its number is its place. The call panics on the same
/// names as `add_text_field`.
#[verifier::external_body]
pub(crate) fn add_date_field(builder: &mut SchemaBuilder, name: &str) -> (field: u32)
    requires
        fresh_field_name(builder_fields(*old(builder)), name@),
        builder_fields(*old(builder)).len() < u32::MAX,
    ensures
        builder_fields(*final(builder)) == builder_fields(*old(builder)).push(
            (name@, FieldKind::Date),
        ),
        field == builder_fields(*old(builder)).len(),
{
    builder.add_date_field(name, INDEXED).field_id()
}

/// `SchemaBuilder::build`: the schema holds the builder's fields.
#[verifier::external_body]
pub(crate) fn build_schema(builder: SchemaBuilder) -> (schema: Schema)
    ensures
        schema_fields(schema) == builder_fields(builder),
{
    builder.build()
}

/// `Document::new`: a document without entries.
#[verifier::external_body]
pub(crate) fn new_document() -> (document: IndexDocument)
    ensures
        document_entries(document) == Seq::<(u32, FieldValue)>::empty(),
{
    IndexDocument { entries: tantivy::Document::new() }
}

/// `Document::add_text`: one more entry at the end, holding a copy of the text.
#[verifier::external_body]
pub(crate) fn document_add_text(document: &mut IndexDocument, field: u32, text: &str)
    ensures
        document_entries(*final(document)) == document_entries(*old(document)).push(
            (field, FieldValue::Text(text@)),
        ),
{
    document.entries.add_text(Field::from_field_id(field), text);
}

/// `Document::add_date` of `DateTime::from_timestamp_millis`: one more entry
/// at the end, holding the date in nanoseconds. The date type multiplies the
/// milliseconds by a million in 64 bits, so the precondition keeps the
/// product in range.
#[verifier::external_body]
pub(crate) fn document_add_date(document: &mut IndexDocument, field: u32, millis: i64)
    requires
        -MAX_DATE_MILLIS <= millis <= MAX_DATE_MILLIS,
    ensures
        document_entries(*final(document)) == document_entries(*old(document)).push(
            (field, FieldValue::Date(millis * 1_000_000)),
        ),
{
    document.entries.add_date(Field::from_field_id(field), DateTime::from_timestamp_millis(millis));
}

/// `Document::get_first` followed by `Value::as_text`: a copy of the first
/// entry of the field, where the field has an entry and that entry is text.
#[verifier::external_body]
pub(crate) fn document_first_text(document: &IndexDocument, field: u32) -> (text: Option<String>)
    ensures
        match first_value(document_entries(*document), field) {
            Some(FieldValue::Text(held)) => text is Some && text->Some_0@ == held,
            _ => text is None,
        },
{
    let first = document.entries.get_first(Field::from_field_id(field));
    first.and_then(Value::as_text).map(str::to_owned)
}

/// `MmapDirectory::open`: the directory at a path, with the error turned
/// into the index's own (`From<OpenDirectoryError> for TantivyError`).
/// Whether it opens depends on the file system, so nothing is claimed.
#[verifier::external_body]
pub(crate) fn open_directory(path: &str) -> Result<MmapDirectory, TantivyError> {
    MmapDirectory::open(path).map_err(TantivyError::from)
}

/// `Index::open_or_create`: the index in a directory, made there if there is
/// none. Whether it succeeds depends on what the directory holds. An index
/// that comes back has the given schema: a new one is made with it, and an
/// old one is handed out only if its schema equals it.
#[verifier::external_body]
pub(crate) fn open_or_create_index(directory: MmapDirectory, schema: Schema) -> (opened: Result<
    Index,
    TantivyError,
>)
    ensures
        opened is Ok ==> index_fields(opened->Ok_0) == schema_fields(schema),
{
    Index::open_or_create(directory, schema)
}

/// `Index::writer`: the one writer of the index, with a memory budget in
/// bytes. It fails where the directory is locked or the budget is out of
/// the writer's range.
#[verifier::external_body]
pub(crate) fn index_writer(index: &Index, memory_budget: usize) -> Result<
    IndexWriter,
    TantivyError,
> {
    index.writer(memory_budget)
}

/// `Index::reader`: a reader of the index.
#[verifier::external_body]
pub(crate) fn index_reader(index: &Index) -> Result<IndexReader, TantivyError> {
    index.reader()
}

/// `IndexWriter::add_document`: queues a document for the next commit and
/// gives the stamp of the operation.
#[verifier::external_body]
pub(crate) fn writer_add_document(writer: &IndexWriter, document: IndexDocument) -> Result<
    u64,
    TantivyError,
> {
    writer.add_document(document.entries)
}

/// `IndexWriter::commit`: writes what is queued to the directory and gives
/// the stamp of the commit.
#[verifier::external_body]
pub(crate) fn writer_commit(writer: &mut IndexWriter) -> Result<u64, TantivyError> {
    writer.commit()
}

/// `IndexReader::reload`: makes the reader see the latest commit.
#[verifier::external_body]
pub(crate) fn reader_reload(reader: &IndexReader) -> Result<(), TantivyError> {
    reader.reload()
}

/// `IndexReader::searcher`: a snapshot of what the reader sees.
#[verifier::external_body]
pub(crate) fn reader_searcher(reader: &IndexReader) -> Searcher {
    reader.searcher()
}

/// `Searcher::num_docs`: how many documents the snapshot holds.
#[verifier::external_body]
pub(crate) fn searcher_num_docs(searcher: &Searcher) -> u64 {
    searcher.num_docs()
}

/// `QueryParser::parse_query`, on a parser made by `QueryParser::for_index`
/// with the given fields for bare words: the query that a text stands for,
/// or why it is none. The parser works from the index's schema, the fields
/// and the text, and from the index's tokenizers, which are the stock ones
/// in every index that `open_or_create_index` hands out; so whether it
/// takes the text is a function of the first three. It looks each of the
/// fields up in the schema by its number, so each has to be a field of that
/// schema.
#[verifier::external_body]
pub(crate) fn parse_query(index: &Index, default_fields: Vec<u32>, text: &str) -> (parsed: Result<
    ParsedQuery,
    QueryParserError,
>)
    requires
        forall|i: int|
            0 <= i < default_fields@.len() ==> #[trigger] default_fields@[i] < index_fields(
                *index,
            ).len(),
    ensures
        parsed is Ok <==> query_accepted(index_fields(*index), default_fields@, text@),
{
    let fields = default_fields.into_iter().map(Field::from_field_id).collect();
    match QueryParser::for_index(index, fields).parse_query(text) {
        Ok(query) => Ok(ParsedQuery { query }),
        Err(error) => Err(error),
    }
}

/// `Searcher::search` with the collector `TopDocs::with_limit`: the
/// addresses of the best matches, best first, without their scores. The
/// collector keeps no more than `limit` matches and takes them from the
/// snapshot's own segments. It panics on a limit of zero and reserves room
/// for `limit` matches at once, which the precondition keeps in bounds.
#[verifier::external_body]
pub(crate) fn top_docs(searcher: &Searcher, query: &ParsedQuery, limit: usize) -> (found: Result<
    Vec<(u32, u32)>,
    TantivyError,
>)
    requires
        1 <= limit <= usize::MAX / 16,
    ensures
        found is Ok ==> found->Ok_0@.len() <= limit,
        found is Ok ==> forall|i: int|
            0 <= i < found->Ok_0@.len() ==> snapshot_addresses(*searcher).contains(
                #[trigger] found->Ok_0@[i],
            ),
{
    let top = searcher.search(&query.query, &TopDocs::with_limit(limit))?;
    Ok(top.into_iter().map(|(_, address)| (address.segment_ord, address.doc_id)).collect())
}

/// `Searcher::doc`: the stored fields of the document at an address. The
/// call indexes the snapshot's segments by the address, so the address has
/// to be one of the snapshot's own.
#[verifier::external_body]
pub(crate) fn fetch_document(searcher: &Searcher, segment: u32, place: u32) -> Result<
    IndexDocument,
    TantivyError,
>
    requires
        snapshot_addresses(*searcher).contains((segment, place)),
{
    match searcher.doc(DocAddress::new(segment, place)) {
        Ok(entries) => Ok(IndexDocument { entries }),
        Err(error) => Err(error),
    }
}

} // verus!
