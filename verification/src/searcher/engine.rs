use vstd::prelude::*;
use vstd::string::to_string_from_display_ensures;
use tantivy::{Index, IndexReader, IndexWriter};
use crate::doc::{DocId, Document, DocumentView, Timestamp};
use crate::error::SearchError;
use crate::searcher::backend::{
    document_add_date, document_add_text, document_entries, document_first_text, fetch_document,
    first_value, index_fields, index_reader, index_writer, new_document, open_directory,
    open_or_create_index, parse_query, query_accepted, reader_reload, reader_searcher,
    searcher_num_docs, snapshot_addresses, top_docs, writer_add_document, writer_commit,
    IndexDocument, MAX_DATE_MILLIS,
};
use crate::searcher::schema::{
    conforms, engine_schema, fits, new_engine_schema, FieldValue, BODY_FIELD, DESCRIPTION_FIELD,
    ID_FIELD, PARSED_TIME_FIELD, TITLE_FIELD, URL_FIELD,
};

verus! {

/// The memory that the index's writer may use, in bytes.
pub const WRITER_MEMORY_BUDGET: usize = 100_000_000;

/// The parse date of the document can be written to the index's date field.
pub open spec fn date_fits(document: DocumentView) -> bool {
    document.content.parsed_millis <= MAX_DATE_MILLIS
}

/// The entries that a document is indexed as: its URL and its title, its
/// body and its description where it has them, its parse date in
/// nanoseconds, and its handle.
pub open spec fn indexed_entries(document: DocumentView) -> Seq<(u32, FieldValue)> {
    seq![
        (URL_FIELD, FieldValue::Text(document.content.url)),
        (TITLE_FIELD, FieldValue::Text(document.content.title)),
    ] + match document.content.body {
        Some(body) => seq![(BODY_FIELD, FieldValue::Text(body))],
        None => seq![],
    } + match document.content.description {
        Some(description) => seq![(DESCRIPTION_FIELD, FieldValue::Text(description))],
        None => seq![],
    } + seq![
        (PARSED_TIME_FIELD, FieldValue::Date(document.content.parsed_millis as int * 1_000_000)),
        (ID_FIELD, FieldValue::Text(document.id)),
    ]
}

/// The text that a field of a stored document holds, where its first entry
/// is text.
pub open spec fn stored_text(entries: Seq<(u32, FieldValue)>, field: u32) -> Option<Seq<char>> {
    match first_value(entries, field) {
        Some(FieldValue::Text(text)) => Some(text),
        _ => None,
    }
}

/// One match of a search, as mathematics.
pub struct SearchHitView {
    pub id: Seq<char>,
    pub url: Seq<char>,
    pub title: Seq<char>,
}

/// The match that a stored document stands for: it needs a handle that is
/// not empty, a URL and a title.
pub open spec fn hit_of(entries: Seq<(u32, FieldValue)>) -> Option<SearchHitView> {
    match (
        stored_text(entries, ID_FIELD),
        stored_text(entries, URL_FIELD),
        stored_text(entries, TITLE_FIELD),
    ) {
        (Some(id), Some(url), Some(title)) => if id.len() > 0 {
            Some(SearchHitView { id, url, title })
        } else {
            None
        },
        _ => None,
    }
}

/// One match of a search: the handle of the document, with the two fields
/// that the index keeps for it.
#[derive(Debug, PartialEq, Eq)]
pub struct SearchHit {
    id: DocId,
    url: String,
    title: String,
}

impl View for SearchHit {
    type V = SearchHitView;

    closed spec fn view(&self) -> SearchHitView {
        SearchHitView { id: self.id@, url: self.url@, title: self.title@ }
    }
}

impl SearchHit {
    pub fn id(&self) -> (id: &DocId)
        ensures
            id@ == self@.id,
    {
        &self.id
    }

    pub fn url(&self) -> (url: &str)
        ensures
            url@ == self@.url,
    {
        self.url.as_str()
    }

    pub fn title(&self) -> (title: &str)
        ensures
            title@ == self@.title,
    {
        self.title.as_str()
    }

    /// Gives up the match for the handle in it.
    pub fn into_id(self) -> (id: DocId)
        ensures
            id@ == self@.id,
    {
        self.id
    }
}

/// The parse date as the index's date field takes it: in milliseconds, and
/// small enough to be counted in nanoseconds.
pub fn date_millis(moment: Timestamp) -> (millis: Result<i64, SearchError>)
    ensures
        moment.millis() <= MAX_DATE_MILLIS ==> millis == Ok::<i64, SearchError>(
            moment.millis() as i64,
        ),
        moment.millis() > MAX_DATE_MILLIS ==> millis == Err::<i64, SearchError>(
            SearchError::TimestampOverflow,
        ),
{
    let millis = i64::try_from(moment)?;
    if millis <= MAX_DATE_MILLIS {
        Ok(millis)
    } else {
        Err(SearchError::TimestampOverflow)
    }
}

/// Turns a document into the form that the index takes in. This fails only
/// for a parse date that the date field cannot hold.
pub fn index_document(document: &Document) -> (made: Result<IndexDocument, SearchError>)
    ensures
        date_fits(document@) ==> made is Ok && document_entries(made->Ok_0) == indexed_entries(
            document@,
        ),
        !date_fits(document@) ==> made is Err && made->Err_0 == SearchError::TimestampOverflow,
{
    let millis = date_millis(document.parsed_date())?;
    let mut entries = new_document();
    document_add_text(&mut entries, URL_FIELD, document.url().as_str());
    document_add_text(&mut entries, TITLE_FIELD, document.title().title());
    if let Some(body) = document.body() {
        document_add_text(&mut entries, BODY_FIELD, body.body());
    }
    if let Some(description) = document.description() {
        document_add_text(&mut entries, DESCRIPTION_FIELD, description.description());
    }
    document_add_date(&mut entries, PARSED_TIME_FIELD, millis);
    document_add_text(&mut entries, ID_FIELD, document.id().id());
    assert(document_entries(entries) =~= indexed_entries(document@));
    Ok(entries)
}

/// Reads a stored document back as a match.
pub fn read_hit(stored: &IndexDocument) -> (hit: Option<SearchHit>)
    ensures
        hit is Some <==> hit_of(document_entries(*stored)) is Some,
        hit is Some ==> Some(hit->Some_0@) == hit_of(document_entries(*stored)),
{
    let id = document_first_text(stored, ID_FIELD);
    let url = document_first_text(stored, URL_FIELD);
    let title = document_first_text(stored, TITLE_FIELD);
    match (id, url, title) {
        (Some(id), Some(url), Some(title)) => match DocId::new(id) {
            Ok(id) => Some(SearchHit { id, url, title }),
            Err(_) => None,
        },
        _ => None,
    }
}

/// Every one of the stored documents reads back as a match.
pub open spec fn all_readable(stored: Seq<IndexDocument>) -> bool {
    forall|i: int| 0 <= i < stored.len() ==> hit_of(document_entries(#[trigger] stored[i])) is Some
}

/// Reads stored documents back as matches, in their order. One that cannot
/// be read fails the whole: the index then holds what this engine did not
/// write.
pub fn read_hits(stored: &Vec<IndexDocument>) -> (hits: Result<Vec<SearchHit>, SearchError>)
    ensures
        hits is Ok <==> all_readable(stored@),
        hits is Ok ==> hits->Ok_0@.len() == stored@.len(),
        hits is Ok ==> forall|i: int|
            0 <= i < stored@.len() ==> Some((#[trigger] hits->Ok_0@[i])@) == hit_of(
                document_entries(stored@[i]),
            ),
        hits is Err ==> hits->Err_0 is IndexIo,
{
    let mut hits: Vec<SearchHit> = Vec::new();
    let mut next: usize = 0;
    while next < stored.len()
        invariant
            next <= stored@.len(),
            hits@.len() == next,
            forall|i: int|
                0 <= i < next ==> hit_of(document_entries(#[trigger] stored@[i])) is Some,
            forall|i: int|
                0 <= i < next ==> Some((#[trigger] hits@[i])@) == hit_of(
                    document_entries(stored@[i]),
                ),
        decreases stored@.len() - next,
    {
        match read_hit(&stored[next]) {
            Some(hit) => hits.push(hit),
            None => {
                return Err(unreadable_hit());
            },
        }
        next += 1;
    }
    Ok(hits)
}

/// The most matches that the collector is ever asked for. It reserves room
/// for all of them before it looks at the first.
pub open spec fn widest_search() -> int {
    usize::MAX as int / 16
}

/// The least of three numbers.
pub open spec fn least_of(a: int, b: int, c: int) -> int {
    if a <= b && a <= c {
        a
    } else if b <= c {
        b
    } else {
        c
    }
}

/// How many matches to ask the index for: the limit of the search, but no
/// more than the snapshot holds documents, nor more than the collector can
/// reserve room for.
pub fn search_width(limit: usize, num_docs: u64) -> (width: usize)
    ensures
        width == least_of(limit as int, num_docs as int, widest_search()),
{
    let cap = usize::MAX / 16;
    let bounded = if limit <= cap {
        limit
    } else {
        cap
    };
    if num_docs < bounded as u64 {
        num_docs as usize
    } else {
        bounded
    }
}

/// The text is what the index's error displays as.
pub open spec fn index_error_text(error: &tantivy::TantivyError, text: String) -> bool {
    to_string_from_display_ensures::<tantivy::TantivyError>(error, text)
}

/// The text is what the parser's error displays as.
pub open spec fn query_error_text(error: &tantivy::query::QueryParserError, text: String) -> bool {
    to_string_from_display_ensures::<tantivy::query::QueryParserError>(error, text)
}

/// The error for an index that could not be opened, written or read: it
/// carries the text that the index's own error displays as.
pub fn index_error(error: &tantivy::TantivyError) -> (mapped: SearchError)
    ensures
        mapped is IndexIo,
        index_error_text(error, mapped->IndexIo_0),
{
    SearchError::IndexIo(error.to_string())
}

/// The error for a text that is no query: it carries the text that the
/// parser's own error displays as.
pub fn syntax_error(error: &tantivy::query::QueryParserError) -> (mapped: SearchError)
    ensures
        mapped is QuerySyntax,
        query_error_text(error, mapped->QuerySyntax_0),
{
    SearchError::QuerySyntax(error.to_string())
}

/// What the error for an unreadable stored document says.
pub const UNREADABLE_HIT: &'static str = "a stored document has no handle, URL or title";

/// The error for a stored document that a search met and could not read
/// back as a match.
pub fn unreadable_hit() -> (mapped: SearchError)
    ensures
        mapped is IndexIo,
        mapped->IndexIo_0@ == UNREADABLE_HIT@,
{
    SearchError::IndexIo(UNREADABLE_HIT.to_owned())
}

/// The numbers of the fields in which a search looks for a bare word: the
/// URL, the title, the body and the description.
pub open spec fn searched_fields() -> Seq<u32> {
    seq![URL_FIELD, TITLE_FIELD, BODY_FIELD, DESCRIPTION_FIELD]
}

/// The text is a query to the engine's parser.
pub open spec fn well_formed_query(text: Seq<char>) -> bool {
    query_accepted(engine_schema(), searched_fields(), text)
}

/// The fields in which a search looks for a bare word.
pub fn default_fields() -> (fields: Vec<u32>)
    ensures
        fields@ == searched_fields(),
{
    let mut fields: Vec<u32> = Vec::new();
    fields.push(URL_FIELD);
    fields.push(TITLE_FIELD);
    fields.push(BODY_FIELD);
    fields.push(DESCRIPTION_FIELD);
    assert(fields@ =~= searched_fields());
    fields
}

/// The one index of a deployment, in a directory of its own, with its writer
/// and its reader.
///
/// A document is acknowledged once it is committed and the reader has been
/// reloaded, in that order: a search that starts after `add_doc` has
/// returned `Ok` looks at an index that holds the document.
pub struct SearchEngine {
    writer: IndexWriter,
    reader: IndexReader,
    index: EngineIndex,
    acknowledged: Ghost<Seq<DocumentView>>,
}

/// An index that has the schema of the engine.
struct EngineIndex {
    index: Index,
}

impl EngineIndex {
    #[verifier::type_invariant]
    spec fn well_formed(self) -> bool {
        index_fields(self.index) == engine_schema()
    }
}

impl SearchEngine {
    /// The documents that this engine has acknowledged since it was opened,
    /// in the order of their acknowledgement.
    pub closed spec fn acknowledged(&self) -> Seq<DocumentView> {
        self.acknowledged@
    }

    /// Opens the index in a directory, or makes one there, with the schema
    /// of the engine. Whether this succeeds lies with the file system; when
    /// it fails, the index itself says why.
    pub fn new(index_dir: &str) -> (opened: Result<Self, SearchError>)
        ensures
            opened is Ok ==> opened->Ok_0.acknowledged() == Seq::<DocumentView>::empty(),
            opened is Err ==> opened->Err_0 is IndexIo,
    {
        let schema = new_engine_schema();
        let directory = match open_directory(index_dir) {
            Ok(directory) => directory,
            Err(error) => {
                return Err(index_error(&error));
            },
        };
        let index = match open_or_create_index(directory, schema) {
            Ok(index) => index,
            Err(error) => {
                return Err(index_error(&error));
            },
        };
        let writer = match index_writer(&index, WRITER_MEMORY_BUDGET) {
            Ok(writer) => writer,
            Err(error) => {
                return Err(index_error(&error));
            },
        };
        let reader = match index_reader(&index) {
            Ok(reader) => reader,
            Err(error) => {
                return Err(index_error(&error));
            },
        };
        Ok(
            SearchEngine {
                writer,
                reader,
                index: EngineIndex { index },
                acknowledged: Ghost(Seq::empty()),
            },
        )
    }

    /// Adds a document to the index, commits, and reloads the reader.
    ///
    /// A document whose parse date does not fit the date field is turned
    /// down before the index is touched. Otherwise the outcome lies with the
    /// index: the document is acknowledged exactly when this returns `Ok`.
    pub fn add_doc(&mut self, document: Document) -> (added: Result<(), SearchError>)
        ensures
            !date_fits(document@) ==> added is Err && added->Err_0
                == SearchError::TimestampOverflow,
            date_fits(document@) ==> added is Ok || added->Err_0 is IndexIo,
            added is Ok ==> final(self).acknowledged() == old(self).acknowledged().push(document@),
            added is Err ==> final(self).acknowledged() == old(self).acknowledged(),
    {
        let entries = index_document(&document)?;
        if let Err(error) = writer_add_document(&self.writer, entries) {
            return Err(index_error(&error));
        }
        if let Err(error) = writer_commit(&mut self.writer) {
            return Err(index_error(&error));
        }
        if let Err(error) = reader_reload(&self.reader) {
            return Err(index_error(&error));
        }
        self.acknowledged = Ghost(self.acknowledged@.push(document@));
        Ok(())
    }

    /// The best matches of a query, best first, and no more than `limit`.
    ///
    /// A limit of zero gives no match and no error, whatever the query. For
    /// any other limit the query is parsed first: a text that is no query
    /// is a `QuerySyntax` error, and nothing else is. What a query matches
    /// lies with the index, which may fail with `IndexIo`.
    pub fn search(&self, query_str: &str, limit: usize) -> (found: Result<
        Vec<SearchHit>,
        SearchError,
    >)
        ensures
            limit == 0 ==> found is Ok && found->Ok_0@.len() == 0,
            found is Ok ==> found->Ok_0@.len() <= limit,
            limit > 0 && !well_formed_query(query_str@) ==> found is Err && found->Err_0
                is QuerySyntax,
            limit > 0 && well_formed_query(query_str@) ==> found is Ok || found->Err_0 is IndexIo,
    {
        if limit == 0 {
            return Ok(Vec::new());
        }
        proof {
            use_type_invariant(&self.index);
        }
        let query = match parse_query(&self.index.index, default_fields(), query_str) {
            Ok(query) => query,
            Err(error) => {
                return Err(syntax_error(&error));
            },
        };
        let searcher = reader_searcher(&self.reader);
        let width = search_width(limit, searcher_num_docs(&searcher));
        if width == 0 {
            return Ok(Vec::new());
        }
        let addresses = match top_docs(&searcher, &query, width) {
            Ok(addresses) => addresses,
            Err(error) => {
                return Err(index_error(&error));
            },
        };
        let mut stored: Vec<IndexDocument> = Vec::new();
        let mut next: usize = 0;
        while next < addresses.len()
            invariant
                limit > 0,
                well_formed_query(query_str@),
                addresses@.len() <= limit,
                next <= addresses@.len(),
                stored@.len() == next,
                forall|i: int|
                    0 <= i < addresses@.len() ==> snapshot_addresses(searcher).contains(
                        #[trigger] addresses@[i],
                    ),
            decreases addresses@.len() - next,
        {
            let (segment, place) = addresses[next];
            match fetch_document(&searcher, segment, place) {
                Ok(document) => stored.push(document),
                Err(error) => {
                    return Err(index_error(&error));
                },
            }
            next += 1;
        }
        read_hits(&stored)
    }
}

/// The handles of the matches, in the order of the matches.
pub fn hit_ids(hits: &Vec<SearchHit>) -> (ids: Vec<DocId>)
    ensures
        ids@.len() == hits@.len(),
        forall|i: int| 0 <= i < ids@.len() ==> (#[trigger] ids@[i])@ == hits@[i]@.id,
{
    let mut ids: Vec<DocId> = Vec::new();
    let mut next: usize = 0;
    while next < hits.len()
        invariant
            next <= hits@.len(),
            ids@.len() == next,
            forall|i: int| 0 <= i < ids@.len() ==> (#[trigger] ids@[i])@ == hits@[i]@.id,
        decreases hits@.len() - next,
    {
        ids.push(hits[next].id().clone());
        next += 1;
    }
    ids
}

/// A document that fits the date field is indexed in entries that conform
/// to the schema of the engine.
pub proof fn lemma_indexed_entries_conform(document: DocumentView)
    requires
        date_fits(document),
    ensures
        conforms(indexed_entries(document), engine_schema()),
{
    let entries = indexed_entries(document);
    assert forall|i: int| 0 <= i < entries.len() implies {
        &&& (#[trigger] entries[i]).0 < engine_schema().len()
        &&& fits(entries[i].1, engine_schema()[entries[i].0 as int].1)
    } by {
        let head = seq![
            (URL_FIELD, FieldValue::Text(document.content.url)),
            (TITLE_FIELD, FieldValue::Text(document.content.title)),
        ];
        assert(entries[i] == head[0] || entries[i] == head[1] || entries[i].0 == BODY_FIELD
            && entries[i].1 is Text || entries[i].0 == DESCRIPTION_FIELD && entries[i].1 is Text
            || entries[i].0 == PARSED_TIME_FIELD && entries[i].1 is Date || entries[i].0
            == ID_FIELD && entries[i].1 is Text);
    }
}

/// What is stored of an indexed document reads back as a match with the
/// handle, the URL and the title of that document.
pub proof fn lemma_indexed_document_reads_back(document: DocumentView)
    requires
        document.id.len() > 0,
    ensures
        hit_of(indexed_entries(document)) == Some(
            SearchHitView {
                id: document.id,
                url: document.content.url,
                title: document.content.title,
            },
        ),
{
    let entries = indexed_entries(document);
    lemma_first_value_at(entries, URL_FIELD, 0);
    lemma_first_value_at(entries, TITLE_FIELD, 1);
    lemma_first_value_at(entries, ID_FIELD, entries.len() - 1);
}

/// The first value of a field is the value of the entry before which no
/// entry names the field.
pub proof fn lemma_first_value_at(entries: Seq<(u32, FieldValue)>, field: u32, at: int)
    requires
        0 <= at < entries.len(),
        entries[at].0 == field,
        forall|i: int| 0 <= i < at ==> (#[trigger] entries[i]).0 != field,
    ensures
        first_value(entries, field) == Some(entries[at].1),
    decreases at,
{
    if at > 0 {
        assert(entries[0].0 != field);
        let rest = entries.drop_first();
        assert forall|i: int| 0 <= i < at - 1 implies (#[trigger] rest[i]).0 != field by {
            assert(rest[i] == entries[i + 1]);
        }
        lemma_first_value_at(rest, field, at - 1);
    }
}

} // verus!
