use vstd::prelude::*;
use vstd::std_specs::convert::FromSpecImpl;

verus! {

/// Why a value of the document model was turned down at construction.
#[derive(Clone, Copy, Debug, PartialEq, Eq, Structural)]
pub enum ValidationError {
    /// The identifier was the empty string.
    EmptyId,
    /// The title was the empty string.
    EmptyTitle,
    /// The body was the empty string.
    EmptyBody,
    /// The description was the empty string.
    EmptyDescription,
    /// The text is not an absolute URL.
    MalformedUrl,
}

/// Everything that can go wrong between building a document and reading a
/// reply from the engine.
#[derive(Debug, PartialEq, Eq)]
pub enum SearchError {
    /// A required string was empty, or a URL did not parse.
    Validation(ValidationError),
    /// The parse date cannot be written to the index's date field.
    TimestampOverflow,
    /// The index could not be opened, written or read; the text says why.
    IndexIo(String),
    /// The query string is not a query; the text says why.
    QuerySyntax(String),
    /// The coordinator has shut down.
    ChannelClosed,
}

impl Clone for SearchError {
    fn clone(&self) -> (copy: Self)
        ensures
            copy == *self,
    {
        match self {
            SearchError::Validation(why) => SearchError::Validation(*why),
            SearchError::TimestampOverflow => SearchError::TimestampOverflow,
            SearchError::IndexIo(text) => SearchError::IndexIo(text.clone()),
            SearchError::QuerySyntax(text) => SearchError::QuerySyntax(text.clone()),
            SearchError::ChannelClosed => SearchError::ChannelClosed,
        }
    }
}

impl From<ValidationError> for SearchError {
    /// A validation error as an error of the whole.
    fn from(why: ValidationError) -> (wrapped: SearchError) {
        SearchError::Validation(why)
    }
}

impl FromSpecImpl<ValidationError> for SearchError {
    open spec fn obeys_from_spec() -> bool {
        true
    }

    open spec fn from_spec(why: ValidationError) -> SearchError {
        SearchError::Validation(why)
    }
}

impl SearchError {
    /// The HTTP status that a gateway answers with: 400 for what the caller
    /// got wrong, 503 for a coordinator that is gone, 500 for the rest.
    pub open spec fn status(&self) -> u16 {
        match self {
            SearchError::Validation(_) => 400,
            SearchError::QuerySyntax(_) => 400,
            SearchError::ChannelClosed => 503,
            SearchError::TimestampOverflow => 500,
            SearchError::IndexIo(_) => 500,
        }
    }

    /// The HTTP status that a gateway answers with.
    pub fn status_code(&self) -> (code: u16)
        ensures
            code == self.status(),
    {
        match self {
            SearchError::Validation(_) => 400,
            SearchError::QuerySyntax(_) => 400,
            SearchError::ChannelClosed => 503,
            SearchError::TimestampOverflow => 500,
            SearchError::IndexIo(_) => 500,
        }
    }
}

impl ValidationError {
    /// The sentence that says what was wrong.
    pub open spec fn message_spec(&self) -> Seq<char> {
        match self {
            ValidationError::EmptyId => "Id cannot be empty"@,
            ValidationError::EmptyTitle => "Title cannot be empty"@,
            ValidationError::EmptyBody => "Body cannot be empty"@,
            ValidationError::EmptyDescription => "Description cannot be empty"@,
            ValidationError::MalformedUrl => "Url cannot be parsed"@,
        }
    }

    /// A sentence for logs and responses.
    pub fn message(&self) -> (text: &'static str)
        ensures
            text@ == self.message_spec(),
    {
        match self {
            ValidationError::EmptyId => "Id cannot be empty",
            ValidationError::EmptyTitle => "Title cannot be empty",
            ValidationError::EmptyBody => "Body cannot be empty",
            ValidationError::EmptyDescription => "Description cannot be empty",
            ValidationError::MalformedUrl => "Url cannot be parsed",
        }
    }
}

} // verus!
