use vstd::prelude::*;
use tantivy::schema::Schema;
use crate::searcher::backend::{
    add_date_field, add_text_field, build_schema, builder_fields, schema_builder, schema_fields,
};

verus! {

/// How the index treats a field that holds text.
#[derive(Clone, Copy, Debug, PartialEq, Eq, Structural)]
pub enum TextKind {
    /// Split into words and searched, and handed back with a match.
    SearchedAndStored,
    /// Split into words and searched, but not kept.
    Searched,
    /// Kept and handed back with a match, but not searched.
    Stored,
}

/// How the index treats one field of a document.
#[derive(Clone, Copy, Debug, PartialEq, Eq, Structural)]
pub enum FieldKind {
    /// Text, searched or stored as its kind says.
    Text(TextKind),
    /// A date that is indexed.
    Date,
}

/// What one entry of an index document holds.
pub enum FieldValue {
    /// A string.
    Text(Seq<char>),
    /// A date, in nanoseconds since the epoch.
    Date(int),
    /// Anything else the index can hold; this library writes none.
    Other,
}

/// The number of the field `url`. A field's number is its place in the schema.
pub const URL_FIELD: u32 = 0;

/// The number of the field `title`.
pub const TITLE_FIELD: u32 = 1;

/// The number of the field `body`.
pub const BODY_FIELD: u32 = 2;

/// The number of the field `description`.
pub const DESCRIPTION_FIELD: u32 = 3;

/// The number of the field `parsed`, which holds the parse date.
pub const PARSED_TIME_FIELD: u32 = 4;

/// The number of the field `id`, which holds the document's handle.
pub const ID_FIELD: u32 = 5;

/// The one schema of every index of this library, field by field in the
/// order of their numbers. The first five fields are what a document says;
/// the last keeps the document's handle beside it, so that a match can name
/// the document it stands for.
pub open spec fn engine_schema() -> Seq<(Seq<char>, FieldKind)> {
    seq![
        ("url"@, FieldKind::Text(TextKind::SearchedAndStored)),
        ("title"@, FieldKind::Text(TextKind::SearchedAndStored)),
        ("body"@, FieldKind::Text(TextKind::Searched)),
        ("description"@, FieldKind::Text(TextKind::Searched)),
        ("parsed"@, FieldKind::Date),
        ("id"@, FieldKind::Text(TextKind::Stored)),
    ]
}

/// A value of this shape may stand in a field of this kind.
pub open spec fn fits(value: FieldValue, kind: FieldKind) -> bool {
    match value {
        FieldValue::Text(_) => kind is Text,
        FieldValue::Date(_) => kind is Date,
        FieldValue::Other => false,
    }
}

/// Every entry names a field of the schema and holds a value of its kind.
pub open spec fn conforms(
    entries: Seq<(u32, FieldValue)>,
    schema: Seq<(Seq<char>, FieldKind)>,
) -> bool {
    forall|i: int|
        0 <= i < entries.len() ==> {
            &&& (#[trigger] entries[i]).0 < schema.len()
            &&& fits(entries[i].1, schema[entries[i].0 as int].1)
        }
}

/// Builds the schema of the engine. The number that the builder gives each
/// field is the constant that stands for the field.
pub fn new_engine_schema() -> (schema: Schema)
    ensures
        schema_fields(schema) == engine_schema(),
{
    proof {
        reveal_strlit("url");
        reveal_strlit("title");
        reveal_strlit("body");
        reveal_strlit("description");
        reveal_strlit("parsed");
        reveal_strlit("id");
    }
    let mut builder = schema_builder();
    let url = add_text_field(&mut builder, "url", TextKind::SearchedAndStored);
    let title = add_text_field(&mut builder, "title", TextKind::SearchedAndStored);
    let body = add_text_field(&mut builder, "body", TextKind::Searched);
    let description = add_text_field(&mut builder, "description", TextKind::Searched);
    let parsed = add_date_field(&mut builder, "parsed");
    let id = add_text_field(&mut builder, "id", TextKind::Stored);
    assert(url == URL_FIELD && title == TITLE_FIELD && body == BODY_FIELD);
    assert(description == DESCRIPTION_FIELD && parsed == PARSED_TIME_FIELD && id == ID_FIELD);
    assert(builder_fields(builder) =~= engine_schema());
    build_schema(builder)
}

} // verus!
