use vstd::prelude::*;
use vstd::std_specs::convert::TryFromSpecImpl;
use std::time::{Duration, SystemTime, SystemTimeError};
use crate::error::{SearchError, ValidationError};

verus! {

/// The handle of one document: a non-empty token, given once and never changed.
#[derive(Debug, PartialEq, Eq)]
pub struct DocId {
    id: String,
}

impl View for DocId {
    type V = Seq<char>;

    closed spec fn view(&self) -> Seq<char> {
        self.id@
    }
}

impl Clone for DocId {
    fn clone(&self) -> (copy: Self)
        ensures
            copy == *self,
    {
        proof {
            use_type_invariant(self);
        }
        Self { id: self.id.clone() }
    }
}

impl DocId {
    #[verifier::type_invariant]
    spec fn well_formed(self) -> bool {
        self.id@.len() > 0
    }

    /// Accepts every string but the empty one, and keeps it as it is.
    pub fn new(id: String) -> (made: Result<Self, ValidationError>)
        ensures
            id@.len() > 0 ==> made is Ok && made->Ok_0@ == id@,
            id@.len() == 0 ==> made == Err::<Self, ValidationError>(ValidationError::EmptyId),
    {
        if id.as_str().is_empty() {
            return Err(ValidationError::EmptyId);
        }
        Ok(Self { id })
    }

    /// The text, as it was given; never empty.
    pub fn id(&self) -> (text: &str)
        ensures
            text@ == self@,
            text@.len() > 0,
    {
        proof {
            use_type_invariant(self);
        }
        self.id.as_str()
    }

    /// The text, owned.
    pub fn to_string(&self) -> (text: String)
        ensures
            text@ == self@,
    {
        self.id.clone()
    }
}

/// A document's title: a string that is not empty.
#[derive(Debug, PartialEq, Eq)]
pub struct DocTitle {
    title: String,
}

impl View for DocTitle {
    type V = Seq<char>;

    closed spec fn view(&self) -> Seq<char> {
        self.title@
    }
}

impl Clone for DocTitle {
    fn clone(&self) -> (copy: Self)
        ensures
            copy == *self,
    {
        proof {
            use_type_invariant(self);
        }
        Self { title: self.title.clone() }
    }
}

impl DocTitle {
    #[verifier::type_invariant]
    spec fn well_formed(self) -> bool {
        self.title@.len() > 0
    }

    /// Accepts every string but the empty one, and keeps it as it is.
    pub fn new(title: String) -> (made: Result<Self, ValidationError>)
        ensures
            title@.len() > 0 ==> made is Ok && made->Ok_0@ == title@,
            title@.len() == 0 ==> made == Err::<Self, ValidationError>(ValidationError::EmptyTitle),
    {
        if title.as_str().is_empty() {
            return Err(ValidationError::EmptyTitle);
        }
        Ok(Self { title })
    }

    /// The text, as it was given; never empty.
    pub fn title(&self) -> (text: &str)
        ensures
            text@ == self@,
            text@.len() > 0,
    {
        proof {
            use_type_invariant(self);
        }
        self.title.as_str()
    }

    /// The text, owned.
    pub fn to_string(&self) -> (text: String)
        ensures
            text@ == self@,
    {
        self.title.clone()
    }
}

/// A document's text: a string that is not empty.
#[derive(Debug, PartialEq, Eq)]
pub struct DocBody {
    body: String,
}

impl View for DocBody {
    type V = Seq<char>;

    closed spec fn view(&self) -> Seq<char> {
        self.body@
    }
}

impl Clone for DocBody {
    fn clone(&self) -> (copy: Self)
        ensures
            copy == *self,
    {
        proof {
            use_type_invariant(self);
        }
        Self { body: self.body.clone() }
    }
}

impl DocBody {
    #[verifier::type_invariant]
    spec fn well_formed(self) -> bool {
        self.body@.len() > 0
    }

    /// Accepts every string but the empty one, and keeps it as it is.
    pub fn new(body: String) -> (made: Result<Self, ValidationError>)
        ensures
            body@.len() > 0 ==> made is Ok && made->Ok_0@ == body@,
            body@.len() == 0 ==> made == Err::<Self, ValidationError>(ValidationError::EmptyBody),
    {
        if body.as_str().is_empty() {
            return Err(ValidationError::EmptyBody);
        }
        Ok(Self { body })
    }

    /// The text, as it was given; never empty.
    pub fn body(&self) -> (text: &str)
        ensures
            text@ == self@,
            text@.len() > 0,
    {
        proof {
            use_type_invariant(self);
        }
        self.body.as_str()
    }

    /// The text, owned.
    pub fn to_string(&self) -> (text: String)
        ensures
            text@ == self@,
    {
        self.body.clone()
    }
}

/// A short account of a document: a string that is not empty.
#[derive(Debug, PartialEq, Eq)]
pub struct DocDescription {
    description: String,
}

impl View for DocDescription {
    type V = Seq<char>;

    closed spec fn view(&self) -> Seq<char> {
        self.description@
    }
}

impl Clone for DocDescription {
    fn clone(&self) -> (copy: Self)
        ensures
            copy == *self,
    {
        proof {
            use_type_invariant(self);
        }
        Self { description: self.description.clone() }
    }
}

impl DocDescription {
    #[verifier::type_invariant]
    spec fn well_formed(self) -> bool {
        self.description@.len() > 0
    }

    /// Accepts every string but the empty one, and keeps it as it is.
    pub fn new(description: String) -> (made: Result<Self, ValidationError>)
        ensures
            description@.len() > 0 ==> made is Ok && made->Ok_0@ == description@,
            description@.len() == 0 ==> made == Err::<Self, ValidationError>(
                ValidationError::EmptyDescription,
            ),
    {
        if description.as_str().is_empty() {
            return Err(ValidationError::EmptyDescription);
        }
        Ok(Self { description })
    }

    /// The text, as it was given; never empty.
    pub fn description(&self) -> (text: &str)
        ensures
            text@ == self@,
            text@.len() > 0,
    {
        proof {
            use_type_invariant(self);
        }
        self.description.as_str()
    }

    /// The text, owned.
    pub fn to_string(&self) -> (text: String)
        ensures
            text@ == self@,
    {
        self.description.clone()
    }
}

/// Where a document came from.
#[derive(Clone, Copy, Debug, PartialEq, Eq, Structural)]
pub enum DocType {
    Pdf,
    Html,
}

impl DocType {
    /// The lower-case name of the kind.
    pub open spec fn label(&self) -> Seq<char> {
        match self {
            DocType::Pdf => "pdf"@,
            DocType::Html => "html"@,
        }
    }

    /// The lower-case name of the kind.
    pub fn as_str(&self) -> (text: &'static str)
        ensures
            text@ == self.label(),
    {
        match self {
            DocType::Pdf => "pdf",
            DocType::Html => "html",
        }
    }

    /// The lower-case name of the kind, owned.
    pub fn to_string(&self) -> (text: String)
        ensures
            text@ == self.label(),
    {
        self.as_str().to_owned()
    }
}

/// A moment in time: whole milliseconds since 1 January 1970, 00:00 UTC.
#[derive(Clone, Copy, Debug, PartialEq, Eq, Structural)]
pub struct Timestamp(u128);

#[verifier::external_type_specification]
#[verifier::external_body]
pub struct ExSystemTimeError(SystemTimeError);

/// `SystemTime::elapsed`, taken of the Unix epoch: the time that the system
/// clock has gone past it. Nothing is claimed of the result: two readings
/// may differ in either direction, and a clock that stands before the epoch
/// gives an error.
#[verifier::external_body]
fn since_epoch() -> Result<Duration, SystemTimeError> {
    SystemTime::UNIX_EPOCH.elapsed()
}

/// `Duration::as_millis`: the whole milliseconds in a duration. Nothing is
/// claimed of the number, since a `Duration` is closed to the verifier.
#[verifier::external_body]
fn whole_millis(span: &Duration) -> u128 {
    span.as_millis()
}

impl Timestamp {
    /// The milliseconds since the epoch that this moment stands for.
    pub closed spec fn millis(&self) -> nat {
        self.0 as nat
    }

    /// The moment that lies `millis` milliseconds after the epoch.
    pub fn from_millis(millis: u128) -> (moment: Self)
        ensures
            moment.millis() == millis,
    {
        Timestamp(millis)
    }

    /// The milliseconds since the epoch.
    pub fn as_millis(&self) -> (millis: u128)
        ensures
            millis == self.millis(),
    {
        self.0
    }

    /// The moment a clock reading stands for. A clock that stands before the
    /// epoch reads as the epoch itself.
    pub fn from_clock(elapsed: Option<u128>) -> (moment: Self)
        ensures
            moment.millis() == match elapsed {
                Some(millis) => millis as nat,
                None => 0nat,
            },
    {
        match elapsed {
            Some(millis) => Timestamp(millis),
            None => Timestamp(0),
        }
    }

    /// The present moment by the system clock. This never fails: whatever the
    /// clock says, a moment comes back.
    pub fn now() -> (moment: Result<Self, SearchError>)
        ensures
            moment is Ok,
    {
        let elapsed = match since_epoch() {
            Ok(span) => Some(whole_millis(&span)),
            Err(_) => None,
        };
        Ok(Self::from_clock(elapsed))
    }
}

impl TryFrom<Timestamp> for i64 {
    type Error = SearchError;

    /// The milliseconds as a signed 64-bit number, where they fit.
    fn try_from(value: Timestamp) -> (millis: Result<i64, SearchError>) {
        if value.0 <= i64::MAX as u128 {
            Ok(value.0 as i64)
        } else {
            Err(SearchError::TimestampOverflow)
        }
    }
}

impl TryFromSpecImpl<Timestamp> for i64 {
    open spec fn obeys_try_from_spec() -> bool {
        true
    }

    open spec fn try_from_spec(value: Timestamp) -> Result<i64, SearchError> {
        if value.millis() <= i64::MAX {
            Ok(value.millis() as i64)
        } else {
            Err(SearchError::TimestampOverflow)
        }
    }
}

#[verifier::external_type_specification]
#[verifier::external_body]
pub struct ExUrlParseError(url::ParseError);

/// What `url::Url::parse` makes of a text: the URL written out in its
/// normal form, or nothing where the text is not an absolute URL.
pub uninterp spec fn url_normal_form(input: Seq<char>) -> Option<Seq<char>>;

/// `url::Url::parse`, with the parsed URL handed back as the string it
/// serialises to (`From<Url> for String`). The parser reads nothing but its
/// input, so the outcome is a function of the text alone.
#[verifier::external_body]
fn parse_absolute_url(input: &str) -> (parsed: Result<String, url::ParseError>)
    ensures
        parsed is Ok <==> url_normal_form(input@) is Some,
        parsed is Ok ==> Some(parsed->Ok_0@) == url_normal_form(input@),
{
    url::Url::parse(input).map(String::from)
}

/// The address of a document: an absolute URL in its normal form.
#[derive(Debug, PartialEq, Eq)]
pub struct DocUrl {
    href: String,
}

impl View for DocUrl {
    type V = Seq<char>;

    closed spec fn view(&self) -> Seq<char> {
        self.href@
    }
}

impl Clone for DocUrl {
    fn clone(&self) -> (copy: Self)
        ensures
            copy == *self,
    {
        Self { href: self.href.clone() }
    }
}

impl DocUrl {
    /// Reads an absolute URL. The text is accepted exactly where the URL
    /// parser accepts it, and is kept in the parser's normal form.
    pub fn parse(input: &str) -> (made: Result<Self, ValidationError>)
        ensures
            made is Ok <==> url_normal_form(input@) is Some,
            made is Ok ==> Some(made->Ok_0@) == url_normal_form(input@),
            made is Err ==> made->Err_0 == ValidationError::MalformedUrl,
    {
        match parse_absolute_url(input) {
            Ok(href) => Ok(Self { href }),
            Err(_) => Err(ValidationError::MalformedUrl),
        }
    }

    /// The URL in its normal form.
    pub fn as_str(&self) -> (text: &str)
        ensures
            text@ == self@,
    {
        self.href.as_str()
    }

    /// The URL in its normal form, owned.
    pub fn to_string(&self) -> (text: String)
        ensures
            text@ == self@,
    {
        self.href.clone()
    }
}

/// What a document says before it has a handle, as mathematics.
pub struct CreateDocumentView {
    pub url: Seq<char>,
    pub title: Seq<char>,
    pub body: Option<Seq<char>>,
    pub description: Option<Seq<char>>,
    pub doc_type: DocType,
    pub parsed_millis: nat,
}

/// A document as mathematics: its handle and what it says.
pub struct DocumentView {
    pub id: Seq<char>,
    pub content: CreateDocumentView,
}

/// The text of a body that may be absent.
pub open spec fn body_text(body: Option<DocBody>) -> Option<Seq<char>> {
    match body {
        Some(text) => Some(text@),
        None => None,
    }
}

/// The text of a description that may be absent.
pub open spec fn description_text(description: Option<DocDescription>) -> Option<Seq<char>> {
    match description {
        Some(text) => Some(text@),
        None => None,
    }
}

/// A document as the gateway puts it together, before a handle is given.
#[derive(Debug)]
pub struct CreateDocument {
    url: DocUrl,
    title: DocTitle,
    body: Option<DocBody>,
    description: Option<DocDescription>,
    doc_type: DocType,
    parsed_date: Timestamp,
}

impl View for CreateDocument {
    type V = CreateDocumentView;

    closed spec fn view(&self) -> CreateDocumentView {
        CreateDocumentView {
            url: self.url@,
            title: self.title@,
            body: body_text(self.body),
            description: description_text(self.description),
            doc_type: self.doc_type,
            parsed_millis: self.parsed_date.millis(),
        }
    }
}

impl CreateDocument {
    /// Puts a document together from its parts.
    pub fn new(
        url: DocUrl,
        title: DocTitle,
        body: Option<DocBody>,
        description: Option<DocDescription>,
        doc_type: DocType,
        parsed_date: Timestamp,
    ) -> (made: Self)
        ensures
            made@ == (CreateDocumentView {
                url: url@,
                title: title@,
                body: body_text(body),
                description: description_text(description),
                doc_type,
                parsed_millis: parsed_date.millis(),
            }),
    {
        Self { url, title, body, description, doc_type, parsed_date }
    }

    /// An empty form to fill in field by field.
    pub fn builder() -> (form: CreateDocumentBuilder)
        ensures
            form@ == CreateDocumentSlots::blank(),
    {
        CreateDocumentBuilder {
            url: None,
            title: None,
            body: None,
            description: None,
            doc_type: None,
            parsed_date: None,
        }
    }

    /// Gives the document its handle. Nothing else changes.
    pub fn with_id(self, id: DocId) -> (document: Document)
        ensures
            document@ == (DocumentView { id: id@, content: self@ }),
    {
        Document { id, content: self }
    }

    pub fn url(&self) -> (url: &DocUrl)
        ensures
            url@ == self@.url,
    {
        &self.url
    }

    pub fn title(&self) -> (title: &DocTitle)
        ensures
            title@ == self@.title,
    {
        &self.title
    }

    pub fn body(&self) -> (body: Option<&DocBody>)
        ensures
            body is Some <==> self@.body is Some,
            body is Some ==> Some(body->Some_0@) == self@.body,
    {
        self.body.as_ref()
    }

    pub fn description(&self) -> (description: Option<&DocDescription>)
        ensures
            description is Some <==> self@.description is Some,
            description is Some ==> Some(description->Some_0@) == self@.description,
    {
        self.description.as_ref()
    }

    pub fn doc_type(&self) -> (doc_type: DocType)
        ensures
            doc_type == self@.doc_type,
    {
        self.doc_type
    }

    pub fn parsed_date(&self) -> (parsed_date: Timestamp)
        ensures
            parsed_date.millis() == self@.parsed_millis,
    {
        self.parsed_date
    }
}

/// A document with its handle: the unit that the index takes in.
#[derive(Debug)]
pub struct Document {
    id: DocId,
    content: CreateDocument,
}

impl View for Document {
    type V = DocumentView;

    closed spec fn view(&self) -> DocumentView {
        DocumentView { id: self.id@, content: self.content@ }
    }
}

impl Document {
    /// Puts a document together from its handle and its parts.
    pub fn new(
        id: DocId,
        url: DocUrl,
        title: DocTitle,
        body: Option<DocBody>,
        description: Option<DocDescription>,
        doc_type: DocType,
        parsed_date: Timestamp,
    ) -> (made: Self)
        ensures
            made@ == (DocumentView {
                id: id@,
                content: CreateDocumentView {
                    url: url@,
                    title: title@,
                    body: body_text(body),
                    description: description_text(description),
                    doc_type,
                    parsed_millis: parsed_date.millis(),
                },
            }),
    {
        let content = CreateDocument::new(url, title, body, description, doc_type, parsed_date);
        Self { id, content }
    }

    /// An empty form to fill in field by field.
    pub fn builder() -> (form: DocumentBuilder)
        ensures
            form@ == DocumentSlots::blank(),
    {
        DocumentBuilder { id: None, content: CreateDocument::builder() }
    }

    pub fn id(&self) -> (id: &DocId)
        ensures
            id@ == self@.id,
    {
        &self.id
    }

    pub fn url(&self) -> (url: &DocUrl)
        ensures
            url@ == self@.content.url,
    {
        self.content.url()
    }

    pub fn title(&self) -> (title: &DocTitle)
        ensures
            title@ == self@.content.title,
    {
        self.content.title()
    }

    pub fn body(&self) -> (body: Option<&DocBody>)
        ensures
            body is Some <==> self@.content.body is Some,
            body is Some ==> Some(body->Some_0@) == self@.content.body,
    {
        self.content.body()
    }

    pub fn description(&self) -> (description: Option<&DocDescription>)
        ensures
            description is Some <==> self@.content.description is Some,
            description is Some ==> Some(description->Some_0@) == self@.content.description,
    {
        self.content.description()
    }

    pub fn doc_type(&self) -> (doc_type: DocType)
        ensures
            doc_type == self@.content.doc_type,
    {
        self.content.doc_type()
    }

    pub fn parsed_date(&self) -> (parsed_date: Timestamp)
        ensures
            parsed_date.millis() == self@.content.parsed_millis,
    {
        self.content.parsed_date()
    }
}

/// The fields of a form for a `CreateDocument`: each is filled in or not yet.
pub struct CreateDocumentSlots {
    pub url: Option<Seq<char>>,
    pub title: Option<Seq<char>>,
    pub body: Option<Option<Seq<char>>>,
    pub description: Option<Option<Seq<char>>>,
    pub doc_type: Option<DocType>,
    pub parsed_millis: Option<nat>,
}

impl CreateDocumentSlots {
    /// The form with nothing filled in.
    pub open spec fn blank() -> Self {
        CreateDocumentSlots {
            url: None,
            title: None,
            body: None,
            description: None,
            doc_type: None,
            parsed_millis: None,
        }
    }

    /// Every field is filled in.
    pub open spec fn complete(self) -> bool {
        &&& self.url is Some
        &&& self.title is Some
        &&& self.body is Some
        &&& self.description is Some
        &&& self.doc_type is Some
        &&& self.parsed_millis is Some
    }

    /// The document that a complete form describes.
    pub open spec fn content(self) -> CreateDocumentView
        recommends
            self.complete(),
    {
        CreateDocumentView {
            url: self.url->Some_0,
            title: self.title->Some_0,
            body: self.body->Some_0,
            description: self.description->Some_0,
            doc_type: self.doc_type->Some_0,
            parsed_millis: self.parsed_millis->Some_0,
        }
    }
}

/// The fields of a form for a `Document`.
pub struct DocumentSlots {
    pub id: Option<Seq<char>>,
    pub content: CreateDocumentSlots,
}

impl DocumentSlots {
    /// The form with nothing filled in.
    pub open spec fn blank() -> Self {
        DocumentSlots { id: None, content: CreateDocumentSlots::blank() }
    }

    /// Every field is filled in.
    pub open spec fn complete(self) -> bool {
        self.id is Some && self.content.complete()
    }
}

/// A form for a `CreateDocument`. Every field has to be filled in before
/// `build` hands out a document; a field filled in twice keeps the later value.
#[derive(Debug)]
pub struct CreateDocumentBuilder {
    url: Option<DocUrl>,
    title: Option<DocTitle>,
    body: Option<Option<DocBody>>,
    description: Option<Option<DocDescription>>,
    doc_type: Option<DocType>,
    parsed_date: Option<Timestamp>,
}

impl View for CreateDocumentBuilder {
    type V = CreateDocumentSlots;

    closed spec fn view(&self) -> CreateDocumentSlots {
        CreateDocumentSlots {
            url: match self.url {
                Some(url) => Some(url@),
                None => None,
            },
            title: match self.title {
                Some(title) => Some(title@),
                None => None,
            },
            body: match self.body {
                Some(body) => Some(body_text(body)),
                None => None,
            },
            description: match self.description {
                Some(description) => Some(description_text(description)),
                None => None,
            },
            doc_type: self.doc_type,
            parsed_millis: match self.parsed_date {
                Some(moment) => Some(moment.millis()),
                None => None,
            },
        }
    }
}

impl CreateDocumentBuilder {
    pub fn url(self, url: DocUrl) -> (form: Self)
        ensures
            form@ == (CreateDocumentSlots { url: Some(url@), ..self@ }),
    {
        Self { url: Some(url), ..self }
    }

    pub fn title(self, title: DocTitle) -> (form: Self)
        ensures
            form@ == (CreateDocumentSlots { title: Some(title@), ..self@ }),
    {
        Self { title: Some(title), ..self }
    }

    pub fn body(self, body: Option<DocBody>) -> (form: Self)
        ensures
            form@ == (CreateDocumentSlots { body: Some(body_text(body)), ..self@ }),
    {
        Self { body: Some(body), ..self }
    }

    pub fn description(self, description: Option<DocDescription>) -> (form: Self)
        ensures
            form@ == (CreateDocumentSlots {
                description: Some(description_text(description)),
                ..self@
            }),
    {
        Self { description: Some(description), ..self }
    }

    pub fn doc_type(self, doc_type: DocType) -> (form: Self)
        ensures
            form@ == (CreateDocumentSlots { doc_type: Some(doc_type), ..self@ }),
    {
        Self { doc_type: Some(doc_type), ..self }
    }

    pub fn parsed_date(self, parsed_date: Timestamp) -> (form: Self)
        ensures
            form@ == (CreateDocumentSlots {
                parsed_millis: Some(parsed_date.millis()),
                ..self@
            }),
    {
        Self { parsed_date: Some(parsed_date), ..self }
    }

    /// The document, once every field is filled in; nothing before that.
    pub fn build(self) -> (made: Option<CreateDocument>)
        ensures
            made is Some <==> self@.complete(),
            made is Some ==> made->Some_0@ == self@.content(),
    {
        match (self.url, self.title, self.body, self.description, self.doc_type, self.parsed_date) {
            (
                Some(url),
                Some(title),
                Some(body),
                Some(description),
                Some(doc_type),
                Some(parsed_date),
            ) => Some(CreateDocument::new(url, title, body, description, doc_type, parsed_date)),
            _ => None,
        }
    }
}

/// A form for a `Document`: the form for what it says, and its handle.
#[derive(Debug)]
pub struct DocumentBuilder {
    id: Option<DocId>,
    content: CreateDocumentBuilder,
}

impl View for DocumentBuilder {
    type V = DocumentSlots;

    closed spec fn view(&self) -> DocumentSlots {
        DocumentSlots {
            id: match self.id {
                Some(id) => Some(id@),
                None => None,
            },
            content: self.content@,
        }
    }
}

impl DocumentBuilder {
    pub fn id(self, id: DocId) -> (form: Self)
        ensures
            form@ == (DocumentSlots { id: Some(id@), ..self@ }),
    {
        Self { id: Some(id), content: self.content }
    }

    pub fn url(self, url: DocUrl) -> (form: Self)
        ensures
            form@ == (DocumentSlots {
                content: CreateDocumentSlots { url: Some(url@), ..self@.content },
                ..self@
            }),
    {
        Self { id: self.id, content: self.content.url(url) }
    }

    pub fn title(self, title: DocTitle) -> (form: Self)
        ensures
            form@ == (DocumentSlots {
                content: CreateDocumentSlots { title: Some(title@), ..self@.content },
                ..self@
            }),
    {
        Self { id: self.id, content: self.content.title(title) }
    }

    pub fn body(self, body: Option<DocBody>) -> (form: Self)
        ensures
            form@ == (DocumentSlots {
                content: CreateDocumentSlots { body: Some(body_text(body)), ..self@.content },
                ..self@
            }),
    {
        Self { id: self.id, content: self.content.body(body) }
    }

    pub fn description(self, description: Option<DocDescription>) -> (form: Self)
        ensures
            form@ == (DocumentSlots {
                content: CreateDocumentSlots {
                    description: Some(description_text(description)),
                    ..self@.content
                },
                ..self@
            }),
    {
        Self { id: self.id, content: self.content.description(description) }
    }

    pub fn doc_type(self, doc_type: DocType) -> (form: Self)
        ensures
            form@ == (DocumentSlots {
                content: CreateDocumentSlots { doc_type: Some(doc_type), ..self@.content },
                ..self@
            }),
    {
        Self { id: self.id, content: self.content.doc_type(doc_type) }
    }

    pub fn parsed_date(self, parsed_date: Timestamp) -> (form: Self)
        ensures
            form@ == (DocumentSlots {
                content: CreateDocumentSlots {
                    parsed_millis: Some(parsed_date.millis()),
                    ..self@.content
                },
                ..self@
            }),
    {
        Self { id: self.id, content: self.content.parsed_date(parsed_date) }
    }

    /// The document, once every field is filled in; nothing before that.
    pub fn build(self) -> (made: Option<Document>)
        ensures
            made is Some <==> self@.complete(),
            made is Some ==> made->Some_0@ == (DocumentView {
                id: self@.id->Some_0,
                content: self@.content.content(),
            }),
    {
        match (self.id, self.content.build()) {
            (Some(id), Some(content)) => Some(content.with_id(id)),
            _ => None,
        }
    }
}

} // verus!
