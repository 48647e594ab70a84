use doc_search::doc::{
    CreateDocument, DocBody, DocDescription, DocId, DocTitle, DocType, DocUrl, Document, Timestamp,
};
use doc_search::error::{SearchError, ValidationError};

fn fresh_id() -> DocId {
    DocId::new(nanoid::format(nanoid::rngs::default, &nanoid::alphabet::SAFE, 21)).unwrap()
}

#[test]
fn doc_builder_test() {
    let _ = Document::builder()
        .id(fresh_id())
        .url(DocUrl::parse("https://sirupsen.com/index-merges").unwrap())
        .title(DocTitle::new("test".to_string()).unwrap())
        .body(None)
        .description(None)
        .doc_type(DocType::Html)
        .parsed_date(Timestamp::now().unwrap())
        .build();
}

#[test]
fn non_empty_strings_are_kept_as_given() {
    assert_eq!(DocId::new("a1".to_string()).unwrap().id(), "a1");
    assert_eq!(
        DocTitle::new("Neural Network From Scratch".to_string()).unwrap().title(),
        "Neural Network From Scratch"
    );
    assert_eq!(DocBody::new(" ".to_string()).unwrap().body(), " ");
    assert_eq!(DocDescription::new("d\u{e9}j\u{e0} vu".to_string()).unwrap().description(), "d\u{e9}j\u{e0} vu");
    assert_eq!(DocTitle::new("t".to_string()).unwrap().to_string(), "t");
}

#[test]
fn empty_strings_are_turned_down() {
    assert_eq!(DocId::new(String::new()), Err(ValidationError::EmptyId));
    assert_eq!(DocTitle::new(String::new()), Err(ValidationError::EmptyTitle));
    assert_eq!(DocBody::new(String::new()), Err(ValidationError::EmptyBody));
    assert_eq!(DocDescription::new(String::new()), Err(ValidationError::EmptyDescription));
}

#[test]
fn an_empty_title_fails_before_any_document_exists() {
    let title = DocTitle::new("".to_string());
    assert_eq!(title, Err(ValidationError::EmptyTitle));
    assert_eq!(ValidationError::EmptyTitle.message(), "Title cannot be empty");
}

#[test]
fn validation_errors_say_which_field() {
    assert_eq!(ValidationError::EmptyId.message(), "Id cannot be empty");
    assert_eq!(ValidationError::EmptyBody.message(), "Body cannot be empty");
    assert_eq!(ValidationError::EmptyDescription.message(), "Description cannot be empty");
    assert_eq!(ValidationError::MalformedUrl.message(), "Url cannot be parsed");
}

#[test]
fn clones_are_equal() {
    let title = DocTitle::new("same".to_string()).unwrap();
    assert_eq!(title.clone(), title);
    let error = SearchError::IndexIo("disk".to_string());
    assert_eq!(error.clone(), error);
    assert_eq!(SearchError::Validation(ValidationError::EmptyId).clone(), SearchError::Validation(ValidationError::EmptyId));
}

#[test]
fn doc_type_names() {
    assert_eq!(DocType::Pdf.to_string(), "pdf");
    assert_eq!(DocType::Html.to_string(), "html");
    assert_eq!(DocType::Html.as_str(), "html");
}

#[test]
fn urls_are_kept_in_normal_form() {
    let url = DocUrl::parse("HTTPS://Example.COM").unwrap();
    assert_eq!(url.as_str(), "https://example.com/");
    let plain = DocUrl::parse("https://example.com/a").unwrap();
    assert_eq!(plain.as_str(), "https://example.com/a");
    assert_eq!(plain.to_string(), "https://example.com/a");
}

#[test]
fn text_that_is_no_absolute_url_is_turned_down() {
    assert_eq!(DocUrl::parse("index-merges"), Err(ValidationError::MalformedUrl));
    assert_eq!(DocUrl::parse(""), Err(ValidationError::MalformedUrl));
    assert_eq!(DocUrl::parse("https://"), Err(ValidationError::MalformedUrl));
}

#[test]
fn timestamps_count_milliseconds() {
    assert_eq!(Timestamp::from_millis(1_700_000_000_123).as_millis(), 1_700_000_000_123);
    assert_eq!(Timestamp::from_clock(Some(42)).as_millis(), 42);
    assert_eq!(Timestamp::from_clock(None).as_millis(), 0);
}

#[test]
fn now_never_fails_and_is_after_2020() {
    let now = Timestamp::now().unwrap();
    assert!(now.as_millis() > 1_577_836_800_000);
}

#[test]
fn timestamps_convert_to_i64_where_they_fit() {
    assert_eq!(i64::try_from(Timestamp::from_millis(0)), Ok(0));
    assert_eq!(i64::try_from(Timestamp::from_millis(1_700_000_000_123)), Ok(1_700_000_000_123));
    assert_eq!(i64::try_from(Timestamp::from_millis(i64::MAX as u128)), Ok(i64::MAX));
    assert_eq!(
        i64::try_from(Timestamp::from_millis(i64::MAX as u128 + 1)),
        Err(SearchError::TimestampOverflow)
    );
    assert_eq!(i64::try_from(Timestamp::from_millis(u128::MAX)), Err(SearchError::TimestampOverflow));
}

#[test]
fn a_document_hands_back_what_it_was_built_from() {
    let document = Document::builder()
        .id(DocId::new("id-1".to_string()).unwrap())
        .url(DocUrl::parse("https://example.com/a").unwrap())
        .title(DocTitle::new("Title".to_string()).unwrap())
        .body(Some(DocBody::new("Body".to_string()).unwrap()))
        .description(None)
        .doc_type(DocType::Pdf)
        .parsed_date(Timestamp::from_millis(7))
        .build()
        .unwrap();
    assert_eq!(document.id().id(), "id-1");
    assert_eq!(document.url().as_str(), "https://example.com/a");
    assert_eq!(document.title().title(), "Title");
    assert_eq!(document.body().unwrap().body(), "Body");
    assert!(document.description().is_none());
    assert_eq!(document.doc_type(), DocType::Pdf);
    assert_eq!(document.parsed_date(), Timestamp::from_millis(7));
}

#[test]
fn a_form_with_a_blank_field_builds_nothing() {
    let without_id = Document::builder()
        .url(DocUrl::parse("https://example.com/a").unwrap())
        .title(DocTitle::new("Title".to_string()).unwrap())
        .body(None)
        .description(None)
        .doc_type(DocType::Html)
        .parsed_date(Timestamp::from_millis(7))
        .build();
    assert!(without_id.is_none());
    let without_body = CreateDocument::builder()
        .url(DocUrl::parse("https://example.com/a").unwrap())
        .title(DocTitle::new("Title".to_string()).unwrap())
        .description(None)
        .doc_type(DocType::Html)
        .parsed_date(Timestamp::from_millis(7))
        .build();
    assert!(without_body.is_none());
    assert!(CreateDocument::builder().build().is_none());
}

#[test]
fn a_field_filled_in_twice_keeps_the_later_value() {
    let draft = CreateDocument::builder()
        .url(DocUrl::parse("https://example.com/a").unwrap())
        .title(DocTitle::new("first".to_string()).unwrap())
        .title(DocTitle::new("second".to_string()).unwrap())
        .body(None)
        .description(Some(DocDescription::new("about".to_string()).unwrap()))
        .doc_type(DocType::Html)
        .parsed_date(Timestamp::from_millis(7))
        .build()
        .unwrap();
    assert_eq!(draft.title().title(), "second");
    assert_eq!(draft.description().unwrap().description(), "about");
}

#[test]
fn giving_a_handle_changes_nothing_else() {
    let draft = CreateDocument::new(
        DocUrl::parse("https://example.com/a").unwrap(),
        DocTitle::new("Title".to_string()).unwrap(),
        None,
        Some(DocDescription::new("about".to_string()).unwrap()),
        DocType::Html,
        Timestamp::from_millis(99),
    );
    assert_eq!(draft.url().as_str(), "https://example.com/a");
    assert_eq!(draft.doc_type(), DocType::Html);
    assert_eq!(draft.parsed_date().as_millis(), 99);
    assert!(draft.body().is_none());
    let document = draft.with_id(DocId::new("h".to_string()).unwrap());
    assert_eq!(document.id().id(), "h");
    assert_eq!(document.url().as_str(), "https://example.com/a");
    assert_eq!(document.title().title(), "Title");
    assert!(document.body().is_none());
    assert_eq!(document.description().unwrap().description(), "about");
    assert_eq!(document.doc_type(), DocType::Html);
    assert_eq!(document.parsed_date().as_millis(), 99);
    let direct = Document::new(
        DocId::new("h".to_string()).unwrap(),
        DocUrl::parse("https://example.com/a").unwrap(),
        DocTitle::new("Title".to_string()).unwrap(),
        None,
        None,
        DocType::Pdf,
        Timestamp::from_millis(1),
    );
    assert_eq!(direct.id().id(), "h");
    assert_eq!(direct.doc_type(), DocType::Pdf);
}
