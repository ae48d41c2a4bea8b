//! The response that an invocation hands back to the platform.

use crate::quote::{quotes_view, Quote, QuoteView};
use vstd::prelude::*;
use vstd::string::StringExecFns;

verus! {

/// What a response carries as JSON.
#[derive(Clone, Debug, PartialEq, Eq)]
pub enum Document {
    /// The JSON value `null`.
    Null,
    /// One quote, as a JSON object.
    Quote(Quote),
    /// A list of quotes, as a JSON array of objects.
    Quotes(Vec<Quote>),
}

/// A JSON document with its quotes as records.
pub ghost enum DocumentView {
    Null,
    Quote(QuoteView),
    Quotes(Seq<QuoteView>),
}

impl View for Document {
    type V = DocumentView;

    open spec fn view(&self) -> DocumentView {
        match *self {
            Document::Null => DocumentView::Null,
            Document::Quote(quote) => DocumentView::Quote(quote@),
            Document::Quotes(quotes) => DocumentView::Quotes(quotes_view(quotes@)),
        }
    }
}

/// The body of a response.
#[derive(Clone, Debug, PartialEq, Eq)]
pub enum Body {
    /// No content.
    Empty,
    /// Plain text.
    Text(String),
    /// A JSON document.
    Json(Document),
}

/// The body of a response, with its text as a sequence of characters.
pub ghost enum BodyView {
    Empty,
    Text(Seq<char>),
    Json(DocumentView),
}

impl View for Body {
    type V = BodyView;

    open spec fn view(&self) -> BodyView {
        match *self {
            Body::Empty => BodyView::Empty,
            Body::Text(text) => BodyView::Text(text@),
            Body::Json(document) => BodyView::Json(document@),
        }
    }
}

/// A header of a response.
#[derive(Clone, Debug, PartialEq, Eq)]
pub struct Header {
    pub name: String,
    pub value: String,
}

/// A response: the status code, the two header lists of the platform's
/// response object, the body, and whether the body is base64.
#[derive(Clone, Debug, PartialEq, Eq)]
pub struct Response {
    pub status_code: u16,
    pub headers: Vec<Header>,
    pub multi_value_headers: Vec<Header>,
    pub body: Body,
    pub is_base64_encoded: bool,
}

/// A response with its body as a model.
pub ghost struct ResponseView {
    pub status_code: u16,
    pub headers: Seq<Header>,
    pub multi_value_headers: Seq<Header>,
    pub body: BodyView,
    pub is_base64_encoded: bool,
}

impl View for Response {
    type V = ResponseView;

    open spec fn view(&self) -> ResponseView {
        ResponseView {
            status_code: self.status_code,
            headers: self.headers@,
            multi_value_headers: self.multi_value_headers@,
            body: self.body@,
            is_base64_encoded: self.is_base64_encoded,
        }
    }
}

/// The response with the given status and body. It sets no header and its
/// body is not base64: that holds of every response of this service.
pub open spec fn plain_response(status_code: u16, body: BodyView) -> ResponseView {
    ResponseView {
        status_code,
        headers: Seq::empty(),
        multi_value_headers: Seq::empty(),
        body,
        is_base64_encoded: false,
    }
}

/// The response to a request that changes or removes a quote and names none.
pub open spec fn rowid_required() -> ResponseView {
    plain_response(400, BodyView::Text("rowid is required"@))
}

/// The response to a request whose method the service does not serve.
pub open spec fn method_not_allowed() -> ResponseView {
    plain_response(405, BodyView::Text("Method Not Allowed"@))
}

impl Response {
    /// The response with the given status and body, without headers.
    pub fn new(status_code: u16, body: Body) -> (response: Response)
        ensures
            response@ == plain_response(status_code, body@),
    {
        Response {
            status_code,
            headers: Vec::new(),
            multi_value_headers: Vec::new(),
            body,
            is_base64_encoded: false,
        }
    }

    /// The response with the given status and a body of plain text.
    pub fn text(status_code: u16, text: &str) -> (response: Response)
        ensures
            response@ == plain_response(status_code, BodyView::Text(text@)),
    {
        Response::new(status_code, Body::Text(String::from_str(text)))
    }
}

} // verus!
