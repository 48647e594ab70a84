use doc_search::searcher::engine::SearchEngine;
use doc_search::searcher::schema::{
    new_engine_schema, BODY_FIELD, DESCRIPTION_FIELD, ID_FIELD, PARSED_TIME_FIELD, TITLE_FIELD,
    URL_FIELD,
};
use doc_search::error::SearchError;
use tantivy::schema::{Schema, Type, STORED, TEXT};

#[test]
fn the_schema_has_its_fields_in_the_order_of_their_numbers() {
    let schema = new_engine_schema();
    let names: Vec<String> = schema.fields().map(|(_, entry)| entry.name().to_string()).collect();
    assert_eq!(names, vec!["url", "title", "body", "description", "parsed", "id"]);
    assert_eq!(schema.get_field("url").unwrap().field_id(), URL_FIELD);
    assert_eq!(schema.get_field("title").unwrap().field_id(), TITLE_FIELD);
    assert_eq!(schema.get_field("body").unwrap().field_id(), BODY_FIELD);
    assert_eq!(schema.get_field("description").unwrap().field_id(), DESCRIPTION_FIELD);
    assert_eq!(schema.get_field("parsed").unwrap().field_id(), PARSED_TIME_FIELD);
    assert_eq!(schema.get_field("id").unwrap().field_id(), ID_FIELD);
}

#[test]
fn each_field_is_searched_and_kept_as_its_kind_says() {
    let schema = new_engine_schema();
    let seen: Vec<(Type, bool, bool)> = schema
        .fields()
        .map(|(_, entry)| (entry.field_type().value_type(), entry.is_indexed(), entry.is_stored()))
        .collect();
    assert_eq!(
        seen,
        vec![
            (Type::Str, true, true),
            (Type::Str, true, true),
            (Type::Str, true, false),
            (Type::Str, true, false),
            (Type::Date, true, false),
            (Type::Str, false, true),
        ]
    );
}

#[test]
fn an_index_with_another_schema_is_not_opened() {
    let dir = tempdir::TempDir::new("schema").unwrap();
    let mut builder = Schema::builder();
    builder.add_text_field("headline", TEXT | STORED);
    let other = tantivy::Index::create_in_dir(dir.path(), builder.build()).unwrap();
    drop(other);
    match SearchEngine::new(dir.path().to_str().unwrap()) {
        Err(SearchError::IndexIo(why)) => assert!(why.contains("schema does not match")),
        _ => panic!("an index with another schema was opened"),
    }
}
