use doc_search::doc::{DocBody, DocDescription, DocId, DocTitle, DocType, DocUrl, Document, Timestamp};
use doc_search::error::SearchError;
use doc_search::searcher::backend::MAX_DATE_MILLIS;
use doc_search::searcher::engine::{
    date_millis, default_fields, hit_ids, index_document, index_error, read_hit, search_width,
    syntax_error, unreadable_hit, SearchEngine, UNREADABLE_HIT,
};

const ARTICLE: &str = "<html><body><h1>Neural Network From Scratch</h1><p>We write a small \
    network by hand: forward pass, backward pass, and a plain gradient descent optimizer.</p>\
    </body></html>";

fn document(id: &str, url: &str, title: &str, body: Option<&str>, millis: u128) -> Document {
    Document::builder()
        .id(DocId::new(id.to_string()).unwrap())
        .url(DocUrl::parse(url).unwrap())
        .title(DocTitle::new(title.to_string()).unwrap())
        .body(body.map(|text| DocBody::new(text.to_string()).unwrap()))
        .description(None)
        .doc_type(DocType::Html)
        .parsed_date(Timestamp::from_millis(millis))
        .build()
        .unwrap()
}

fn open(dir: &tempdir::TempDir) -> SearchEngine {
    SearchEngine::new(dir.path().to_str().unwrap()).unwrap()
}

#[test]
fn engine_tantivy_test() {
    let dir = tempdir::TempDir::new("tantivy-test").unwrap();
    println!("creating tantivy index in {dir:?}");
    let mut searcher = SearchEngine::new(dir.path().to_str().unwrap()).unwrap();
    let doc = Document::builder()
        .id(DocId::new(nanoid::format(nanoid::rngs::default, &nanoid::alphabet::SAFE, 21)).unwrap())
        .url(DocUrl::parse("https://sirupsen.com/index-merges").unwrap())
        .title(DocTitle::new("Neural Network From Scratch".to_string()).unwrap())
        .body(Some(DocBody::new(ARTICLE.to_string()).unwrap()))
        .description(Some(
            DocDescription::new("Article about writing a neural net from scratch".to_string()).unwrap(),
        ))
        .doc_type(DocType::Html)
        .parsed_date(Timestamp::now().unwrap())
        .build()
        .unwrap();
    searcher.add_doc(doc).unwrap();

    let query = searcher.search("Neural Network From Scratch", 10).unwrap();
    println!("{query:?}");
    assert_eq!(query.len(), 1);
    drop(searcher);
    dir.close().unwrap();
}

#[test]
fn searcher_tantivy_test() {
    let dir = tempdir::TempDir::new("tantivy-test").unwrap();
    println!("creating tantivy index in {dir:?}");
    let mut searcher = open(&dir);
    let doc = Document::builder()
        .id(DocId::new("only".to_string()).unwrap())
        .url(DocUrl::parse("https://sirupsen.com/index-merges").unwrap())
        .title(DocTitle::new("Neural Network From Scratch".to_string()).unwrap())
        .body(Some(DocBody::new(ARTICLE.to_string()).unwrap()))
        .description(Some(
            DocDescription::new("Article about writing a neural net from scratch".to_string()).unwrap(),
        ))
        .doc_type(DocType::Html)
        .parsed_date(Timestamp::now().unwrap())
        .build()
        .unwrap();
    searcher.add_doc(doc).unwrap();
    let query = searcher.search("Neural Network From Scratch", 10).unwrap();
    println!("{query:?}");
    assert_eq!(query[0].id().id(), "only");
    drop(searcher);
    dir.close().unwrap();
}

#[test]
fn a_word_of_the_title_finds_the_document() {
    let dir = tempdir::TempDir::new("engine").unwrap();
    let mut engine = open(&dir);
    engine.add_doc(document("a", "https://example.com/a", "Quokka habitats", Some("marsupials"), 1)).unwrap();
    engine.add_doc(document("b", "https://example.com/b", "Wombat burrows", Some("marsupials"), 2)).unwrap();
    let hits = engine.search("quokka", 10).unwrap();
    assert_eq!(hits.len(), 1);
    assert_eq!(hits[0].id().id(), "a");
    assert_eq!(hits[0].url(), "https://example.com/a");
    assert_eq!(hits[0].title(), "Quokka habitats");
    let both = engine.search("marsupials", 10).unwrap();
    assert_eq!(both.len(), 2);
}

#[test]
fn the_url_and_the_description_are_searched_too() {
    let dir = tempdir::TempDir::new("engine").unwrap();
    let mut engine = open(&dir);
    let doc = Document::builder()
        .id(DocId::new("d".to_string()).unwrap())
        .url(DocUrl::parse("https://example.com/platypus").unwrap())
        .title(DocTitle::new("Untitled".to_string()).unwrap())
        .body(None)
        .description(Some(DocDescription::new("about echidnas".to_string()).unwrap()))
        .doc_type(DocType::Pdf)
        .parsed_date(Timestamp::from_millis(5))
        .build()
        .unwrap();
    engine.add_doc(doc).unwrap();
    assert_eq!(engine.search("platypus", 10).unwrap().len(), 1);
    assert_eq!(engine.search("echidnas", 10).unwrap().len(), 1);
    assert_eq!(engine.search("d", 10).unwrap().len(), 0);
}

#[test]
fn a_search_gives_no_more_than_its_limit() {
    let dir = tempdir::TempDir::new("engine").unwrap();
    let mut engine = open(&dir);
    for (id, title) in [("1", "kiwi one"), ("2", "kiwi two"), ("3", "kiwi three")] {
        engine.add_doc(document(id, "https://example.com/k", title, None, 1)).unwrap();
    }
    assert_eq!(engine.search("kiwi", 0).unwrap().len(), 0);
    assert_eq!(engine.search("kiwi", 1).unwrap().len(), 1);
    assert_eq!(engine.search("kiwi", 2).unwrap().len(), 2);
    assert_eq!(engine.search("kiwi", 3).unwrap().len(), 3);
    assert_eq!(engine.search("kiwi", 4).unwrap().len(), 3);
    assert_eq!(engine.search("kiwi", usize::MAX).unwrap().len(), 3);
}

#[test]
fn a_limit_of_zero_is_no_error_even_for_a_malformed_query() {
    let dir = tempdir::TempDir::new("engine").unwrap();
    let engine = open(&dir);
    assert_eq!(engine.search("nosuchfield:x", 0), Ok(vec![]));
    assert_eq!(engine.search("anything", 0), Ok(vec![]));
}

#[test]
fn an_empty_index_has_no_match() {
    let dir = tempdir::TempDir::new("engine").unwrap();
    let engine = open(&dir);
    assert_eq!(engine.search("anything", 10), Ok(vec![]));
}

#[test]
fn a_malformed_query_is_a_syntax_error() {
    let dir = tempdir::TempDir::new("engine").unwrap();
    let mut engine = open(&dir);
    engine.add_doc(document("a", "https://example.com/a", "Quokka", None, 1)).unwrap();
    assert!(matches!(engine.search("nosuchfield:x", 10), Err(SearchError::QuerySyntax(_))));
    assert!(matches!(engine.search("title:[a TO", 10), Err(SearchError::QuerySyntax(_))));
}

#[test]
fn the_better_match_comes_first() {
    let dir = tempdir::TempDir::new("engine").unwrap();
    let mut engine = open(&dir);
    engine
        .add_doc(document("weak", "https://example.com/1", "Emu and many other large birds of the plains", None, 1))
        .unwrap();
    engine.add_doc(document("strong", "https://example.com/2", "Emu emu emu", None, 2)).unwrap();
    let hits = engine.search("emu", 10).unwrap();
    assert_eq!(hits.len(), 2);
    assert_eq!(hits[0].id().id(), "strong");
    assert_eq!(hits[1].id().id(), "weak");
    let ids = hit_ids(&hits);
    assert_eq!(ids.len(), 2);
    assert_eq!(ids[0].id(), "strong");
    assert_eq!(ids[1].id(), "weak");
}

#[test]
fn a_date_that_does_not_fit_is_turned_down_and_nothing_is_written() {
    let dir = tempdir::TempDir::new("engine").unwrap();
    let mut engine = open(&dir);
    let late = document("late", "https://example.com/l", "Cassowary", None, MAX_DATE_MILLIS as u128 + 1);
    assert_eq!(engine.add_doc(late), Err(SearchError::TimestampOverflow));
    let huge = document("huge", "https://example.com/h", "Cassowary", None, u128::MAX);
    assert_eq!(engine.add_doc(huge), Err(SearchError::TimestampOverflow));
    assert_eq!(engine.search("cassowary", 10), Ok(vec![]));
    let last = document("last", "https://example.com/m", "Cassowary", None, MAX_DATE_MILLIS as u128);
    assert_eq!(engine.add_doc(last), Ok(()));
    assert_eq!(engine.search("cassowary", 10).unwrap().len(), 1);
}

#[test]
fn date_millis_has_its_bound_at_the_last_nanosecond_count() {
    assert_eq!(MAX_DATE_MILLIS, i64::MAX / 1_000_000);
    assert_eq!(date_millis(Timestamp::from_millis(0)), Ok(0));
    assert_eq!(date_millis(Timestamp::from_millis(9_223_372_036_854)), Ok(9_223_372_036_854));
    assert_eq!(date_millis(Timestamp::from_millis(9_223_372_036_855)), Err(SearchError::TimestampOverflow));
    assert_eq!(date_millis(Timestamp::from_millis(1 << 70)), Err(SearchError::TimestampOverflow));
}

#[test]
fn what_is_indexed_reads_back_as_a_match() {
    let doc = document("id-7", "https://example.com/seven", "Seven", Some("not kept"), 7);
    let entries = index_document(&doc).unwrap();
    let hit = read_hit(&entries).unwrap();
    assert_eq!(hit.id().id(), "id-7");
    assert_eq!(hit.url(), "https://example.com/seven");
    assert_eq!(hit.title(), "Seven");
    assert_eq!(hit.into_id().id(), "id-7");
    let late = document("id-8", "https://example.com/eight", "Eight", None, u128::MAX);
    assert!(matches!(index_document(&late), Err(SearchError::TimestampOverflow)));
}

#[test]
fn search_width_is_the_least_of_limit_count_and_room() {
    assert_eq!(search_width(10, 3), 3);
    assert_eq!(search_width(2, 3), 2);
    assert_eq!(search_width(0, 3), 0);
    assert_eq!(search_width(5, 0), 0);
    assert_eq!(search_width(usize::MAX, 7), 7);
    assert_eq!(search_width(usize::MAX, u64::MAX), usize::MAX / 16);
}

#[test]
fn searches_look_in_four_fields() {
    assert_eq!(default_fields(), vec![0, 1, 2, 3]);
}

#[test]
fn an_unusable_directory_is_an_index_error() {
    let dir = tempdir::TempDir::new("engine").unwrap();
    let missing = dir.path().join("not-there");
    assert!(matches!(SearchEngine::new(missing.to_str().unwrap()), Err(SearchError::IndexIo(_))));
    assert!(matches!(unreadable_hit(), SearchError::IndexIo(_)));
}

#[test]
fn an_index_is_found_again_in_its_directory() {
    let dir = tempdir::TempDir::new("engine").unwrap();
    {
        let mut engine = open(&dir);
        engine.add_doc(document("kept", "https://example.com/kept", "Kookaburra", None, 3)).unwrap();
    }
    let engine = open(&dir);
    let hits = engine.search("kookaburra", 10).unwrap();
    assert_eq!(hits.len(), 1);
    assert_eq!(hits[0].id().id(), "kept");
}

#[test]
fn a_second_engine_on_a_directory_in_use_is_an_index_error() {
    let dir = tempdir::TempDir::new("engine").unwrap();
    let _first = open(&dir);
    assert!(matches!(SearchEngine::new(dir.path().to_str().unwrap()), Err(SearchError::IndexIo(_))));
}

#[test]
fn the_parse_date_is_indexed_in_its_field() {
    let dir = tempdir::TempDir::new("engine").unwrap();
    let mut engine = open(&dir);
    engine.add_doc(document("d", "https://example.com/d", "Dated", None, 31_536_000_000)).unwrap();
    let on_the_day = engine.search("parsed:\"1971-01-01T00:00:00Z\"", 10).unwrap();
    assert_eq!(on_the_day.len(), 1);
    let around = engine.search("parsed:[1970-12-31T00:00:00Z TO 1971-01-02T00:00:00Z]", 10).unwrap();
    assert_eq!(around.len(), 1);
    let at_the_epoch = engine.search("parsed:[1970-01-01T00:00:00Z TO 1970-01-02T00:00:00Z]", 10).unwrap();
    assert_eq!(at_the_epoch.len(), 0);
}

#[test]
fn the_handle_is_kept_but_not_searched() {
    let dir = tempdir::TempDir::new("engine").unwrap();
    let mut engine = open(&dir);
    engine.add_doc(document("zebra", "https://example.com/z", "Stripes", None, 1)).unwrap();
    assert_eq!(engine.search("zebra", 10), Ok(vec![]));
    assert!(matches!(engine.search("id:zebra", 10), Err(SearchError::QuerySyntax(_))));
    assert_eq!(engine.search("stripes", 10).unwrap()[0].id().id(), "zebra");
}

#[test]
fn the_body_is_searched_but_not_kept() {
    let dir = tempdir::TempDir::new("engine").unwrap();
    let mut engine = open(&dir);
    engine.add_doc(document("b", "https://example.com/b", "Title", Some("numbat termites"), 1)).unwrap();
    let hits = engine.search("body:termites", 10).unwrap();
    assert_eq!(hits.len(), 1);
    assert_eq!(hits[0].title(), "Title");
    assert_eq!(engine.search("title:termites", 10), Ok(vec![]));
}

#[test]
fn words_of_a_query_are_alternatives() {
    let dir = tempdir::TempDir::new("engine").unwrap();
    let mut engine = open(&dir);
    engine.add_doc(document("a", "https://example.com/a", "Dingo", None, 1)).unwrap();
    engine.add_doc(document("b", "https://example.com/b", "Bilby", None, 1)).unwrap();
    assert_eq!(engine.search("dingo bilby", 10).unwrap().len(), 2);
    assert_eq!(engine.search("dingo AND bilby", 10).unwrap().len(), 0);
}

#[test]
fn an_index_error_carries_what_the_index_says() {
    let refused = tantivy::TantivyError::InvalidArgument("budget too small".to_string());
    assert_eq!(index_error(&refused), SearchError::IndexIo(refused.to_string()));
    assert_eq!(
        index_error(&refused),
        SearchError::IndexIo("An invalid argument was passed: 'budget too small'".to_string())
    );
    let missing = tantivy::TantivyError::FieldNotFound("headline".to_string());
    assert_eq!(index_error(&missing), SearchError::IndexIo(missing.to_string()));
}

#[test]
fn a_syntax_error_carries_what_the_parser_says() {
    let malformed = tantivy::query::QueryParserError::SyntaxError("a AND".to_string());
    assert_eq!(syntax_error(&malformed), SearchError::QuerySyntax("Syntax Error: a AND".to_string()));
    let unknown = tantivy::query::QueryParserError::FieldDoesNotExist("headline".to_string());
    assert_eq!(syntax_error(&unknown), SearchError::QuerySyntax(unknown.to_string()));
}

#[test]
fn the_error_of_a_search_is_the_text_of_the_parser() {
    let dir = tempdir::TempDir::new("engine").unwrap();
    let mut engine = open(&dir);
    engine.add_doc(document("a", "https://example.com/a", "Quokka", None, 1)).unwrap();
    assert_eq!(
        engine.search("nosuchfield:x", 10),
        Err(SearchError::QuerySyntax("Field does not exist: 'nosuchfield'".to_string()))
    );
}

#[test]
fn an_unreadable_hit_says_what_is_missing() {
    assert_eq!(UNREADABLE_HIT, "a stored document has no handle, URL or title");
    assert_eq!(unreadable_hit(), SearchError::IndexIo(UNREADABLE_HIT.to_string()));
}
