//! From a request to an operation on the table, and from what the table
//! answered to a response.
//!
//! An invocation takes two steps. [`route`] reads the request and either
//! answers it at once or names the one operation to carry out. The caller
//! sends that operation's statement to the table and hands what came back to
//! [`respond`], which shapes the response.

use crate::failure::Fatal;
use crate::operation::{Operation, OperationKind, OperationView};
use crate::quote::{quotes_view, text_view, Quote, QuoteView};
use crate::response::{
    method_not_allowed, plain_response, rowid_required, Body, BodyView, Document, DocumentView,
    Response, ResponseView,
};
use crate::rowid::{parse_rowid, rowid_value};
use crate::text::same_text;
use vstd::prelude::*;

verus! {

/// The method of a request.
#[derive(Clone, Copy, Debug, PartialEq, Eq, Structural)]
pub enum Method {
    Get,
    Post,
    Put,
    Delete,
    /// Any method that the service does not serve.
    Other,
}

impl Method {
    /// The method with the given name. Names are upper case, as the platform
    /// hands them on: `get` is not `GET`.
    pub open spec fn spec_from_name(name: Seq<char>) -> Method {
        if name == "GET"@ {
            Method::Get
        } else if name == "POST"@ {
            Method::Post
        } else if name == "PUT"@ {
            Method::Put
        } else if name == "DELETE"@ {
            Method::Delete
        } else {
            Method::Other
        }
    }

    /// The method with the given name. Names are upper case, as the platform
    /// hands them on: `get` is not `GET`.
    pub fn from_name(name: &str) -> (method: Method)
        ensures
            method == Method::spec_from_name(name@),
    {
        if same_text(name, "GET") {
            Method::Get
        } else if same_text(name, "POST") {
            Method::Post
        } else if same_text(name, "PUT") {
            Method::Put
        } else if same_text(name, "DELETE") {
            Method::Delete
        } else {
            Method::Other
        }
    }
}

/// What reading the body of a request as a quote gave.
#[derive(Clone, Debug, PartialEq, Eq)]
pub enum Payload {
    /// The request has no body.
    Absent,
    /// The body is not a quote.
    Malformed,
    /// The body is this quote.
    Quote(Quote),
}

/// A payload with its quote as a record.
pub ghost enum PayloadView {
    Absent,
    Malformed,
    Quote(QuoteView),
}

impl View for Payload {
    type V = PayloadView;

    open spec fn view(&self) -> PayloadView {
        match *self {
            Payload::Absent => PayloadView::Absent,
            Payload::Malformed => PayloadView::Malformed,
            Payload::Quote(quote) => PayloadView::Quote(quote@),
        }
    }
}

/// A request: its method, the value of its query parameter `rowid` if it has
/// one, and its body.
#[derive(Clone, Debug, PartialEq, Eq)]
pub struct Request {
    pub method: Method,
    pub rowid: Option<String>,
    pub body: Payload,
}

/// A request with its texts as sequences of characters.
pub ghost struct RequestView {
    pub method: Method,
    pub rowid: Option<Seq<char>>,
    pub body: PayloadView,
}

impl View for Request {
    type V = RequestView;

    open spec fn view(&self) -> RequestView {
        RequestView { method: self.method, rowid: text_view(self.rowid), body: self.body@ }
    }
}

/// What to do about a request.
#[derive(Clone, Debug, PartialEq, Eq)]
pub enum Route {
    /// Answer with this response. The table is not asked.
    Respond(Response),
    /// Carry this operation out and answer with what [`respond`] makes of
    /// the outcome.
    Run(Operation),
}

/// A route with its content as a model.
pub ghost enum RouteView {
    Respond(ResponseView),
    Run(OperationView),
}

impl View for Route {
    type V = RouteView;

    open spec fn view(&self) -> RouteView {
        match *self {
            Route::Respond(response) => RouteView::Respond(response@),
            Route::Run(operation) => RouteView::Run(operation@),
        }
    }
}

/// The route of a request whose `rowid` parameter, if any, has been read.
///
/// `id` is `None` for a request without the parameter, `Some(None)` for a
/// parameter that is no identifier.
pub open spec fn route_with(
    method: Method,
    id: Option<Option<i64>>,
    body: PayloadView,
) -> Result<RouteView, Fatal> {
    match method {
        Method::Get => match id {
            None => Ok(RouteView::Run(OperationView::List)),
            Some(None) => Err(Fatal::InvalidRowId),
            Some(Some(id)) => Ok(RouteView::Run(OperationView::Fetch { id })),
        },
        Method::Post => match body {
            PayloadView::Quote(quote) => Ok(RouteView::Run(OperationView::Insert { quote })),
            _ => Err(Fatal::MalformedBody),
        },
        Method::Put => match id {
            None => Ok(RouteView::Respond(rowid_required())),
            Some(None) => Err(Fatal::InvalidRowId),
            Some(Some(id)) => match body {
                PayloadView::Quote(quote) => Ok(
                    RouteView::Run(OperationView::Update { id, quote }),
                ),
                _ => Err(Fatal::MalformedBody),
            },
        },
        Method::Delete => match id {
            None => Ok(RouteView::Respond(rowid_required())),
            Some(None) => Err(Fatal::InvalidRowId),
            Some(Some(id)) => Ok(RouteView::Run(OperationView::Delete { id })),
        },
        Method::Other => Ok(RouteView::Respond(method_not_allowed())),
    }
}

/// The route of a request.
pub open spec fn route_of(request: RequestView) -> Result<RouteView, Fatal> {
    route_with(
        request.method,
        match request.rowid {
            Some(text) => Some(rowid_value(text)),
            None => None,
        },
        request.body,
    )
}

/// The model of what [`route`] returns.
pub open spec fn route_result_view(result: Result<Route, Fatal>) -> Result<RouteView, Fatal> {
    match result {
        Ok(route) => Ok(route@),
        Err(fatal) => Err(fatal),
    }
}

/// Decides what to do about a request.
///
/// | method | `rowid` | body | result |
/// |---|---|---|---|
/// | GET | none | any | run `List` |
/// | GET | an identifier | any | run `Fetch` |
/// | POST | any | a quote | run `Insert` |
/// | PUT | none | any | respond 400, `rowid is required` |
/// | PUT | an identifier | a quote | run `Update` |
/// | DELETE | none | any | respond 400, `rowid is required` |
/// | DELETE | an identifier | any | run `Delete` |
/// | other | any | any | respond 405, `Method Not Allowed` |
///
/// Where the method reads `rowid` and its value is no identifier, the result
/// is `Fatal::InvalidRowId`. Where the method reads the body, behind a
/// `rowid` that was read, and the body is absent or no quote, the result is
/// `Fatal::MalformedBody`. A POST does not read `rowid`; GET and DELETE do not
/// read the body.
pub fn route(request: Request) -> (result: Result<Route, Fatal>)
    ensures
        route_result_view(result) == route_of(request@),
        request.method == Method::Other ==> route_result_view(result) == Ok::<RouteView, Fatal>(
            RouteView::Respond(method_not_allowed()),
        ),
        (request.method == Method::Put || request.method == Method::Delete) && request.rowid
            is None ==> route_result_view(result) == Ok::<RouteView, Fatal>(
            RouteView::Respond(rowid_required()),
        ),
{
    let Request { method, rowid, body } = request;
    match method {
        Method::Get => match rowid {
            None => Ok(Route::Run(Operation::List)),
            Some(text) => match parse_rowid(text.as_str()) {
                None => Err(Fatal::InvalidRowId),
                Some(id) => Ok(Route::Run(Operation::Fetch { id })),
            },
        },
        Method::Post => match body {
            Payload::Quote(quote) => Ok(Route::Run(Operation::Insert { quote })),
            _ => Err(Fatal::MalformedBody),
        },
        Method::Put => match rowid {
            None => Ok(Route::Respond(Response::text(400, "rowid is required"))),
            Some(text) => match parse_rowid(text.as_str()) {
                None => Err(Fatal::InvalidRowId),
                Some(id) => match body {
                    Payload::Quote(quote) => Ok(Route::Run(Operation::Update { id, quote })),
                    _ => Err(Fatal::MalformedBody),
                },
            },
        },
        Method::Delete => match rowid {
            None => Ok(Route::Respond(Response::text(400, "rowid is required"))),
            Some(text) => match parse_rowid(text.as_str()) {
                None => Err(Fatal::InvalidRowId),
                Some(id) => Ok(Route::Run(Operation::Delete { id })),
            },
        },
        Method::Other => Ok(Route::Respond(Response::text(405, "Method Not Allowed"))),
    }
}

/// What the table answered to a statement.
#[derive(Clone, Debug, PartialEq, Eq)]
pub enum Outcome {
    /// The table could not be reached, or it rejected the statement.
    Failed,
    /// These rows, in this order.
    Rows(Vec<Quote>),
    /// This row, or none.
    Row(Option<Quote>),
    /// This many rows were changed.
    Affected(u64),
}

/// An outcome with its rows as records.
pub ghost enum OutcomeView {
    Failed,
    Rows(Seq<QuoteView>),
    Row(Option<QuoteView>),
    Affected(u64),
}

impl View for Outcome {
    type V = OutcomeView;

    open spec fn view(&self) -> OutcomeView {
        match *self {
            Outcome::Failed => OutcomeView::Failed,
            Outcome::Rows(rows) => OutcomeView::Rows(quotes_view(rows@)),
            Outcome::Row(row) => OutcomeView::Row(
                match row {
                    Some(quote) => Some(quote@),
                    None => None,
                },
            ),
            Outcome::Affected(count) => OutcomeView::Affected(count),
        }
    }
}

/// The response with a JSON body.
pub open spec fn json_response(status_code: u16, document: DocumentView) -> ResponseView {
    plain_response(status_code, BodyView::Json(document))
}

/// The response to an operation, given what the table answered.
pub open spec fn response_to(kind: OperationKind, outcome: OutcomeView) -> Result<
    ResponseView,
    Fatal,
> {
    match (kind, outcome) {
        (OperationKind::List, OutcomeView::Rows(rows)) => Ok(
            json_response(200, DocumentView::Quotes(rows)),
        ),
        (OperationKind::Fetch, OutcomeView::Row(Some(quote))) => Ok(
            json_response(200, DocumentView::Quote(quote)),
        ),
        (OperationKind::Fetch, OutcomeView::Row(None)) => Ok(
            json_response(200, DocumentView::Null),
        ),
        (OperationKind::Insert, OutcomeView::Row(Some(quote))) => Ok(
            json_response(201, DocumentView::Quote(quote)),
        ),
        (OperationKind::Update, OutcomeView::Row(Some(quote))) => Ok(
            json_response(200, DocumentView::Quote(quote)),
        ),
        (OperationKind::Update, OutcomeView::Row(None)) => Ok(
            plain_response(200, BodyView::Empty),
        ),
        (OperationKind::Delete, OutcomeView::Affected(_)) => Ok(
            plain_response(204, BodyView::Empty),
        ),
        _ => Err(Fatal::Storage),
    }
}

/// The model of what [`respond`] returns.
pub open spec fn response_result_view(result: Result<Response, Fatal>) -> Result<
    ResponseView,
    Fatal,
> {
    match result {
        Ok(response) => Ok(response@),
        Err(fatal) => Err(fatal),
    }
}

/// Shapes the response to an operation from what the table answered.
///
/// | operation | outcome | result |
/// |---|---|---|
/// | `List` | rows | 200, the rows as a JSON array, in the table's order |
/// | `Fetch` | a row | 200, the row as a JSON object |
/// | `Fetch` | no row | 200, JSON `null` |
/// | `Insert` | a row | 201, the stored row as a JSON object |
/// | `Update` | a row | 200, the row as a JSON object |
/// | `Update` | no row | 200, no body |
/// | `Delete` | a count | 204, no body |
///
/// A delete that removed nothing is answered like one that removed a row.
/// Every other pairing is `Fatal::Storage`: the table failed, or it answered
/// with something the operation's statement cannot give.
pub fn respond(kind: OperationKind, outcome: Outcome) -> (result: Result<Response, Fatal>)
    ensures
        response_result_view(result) == response_to(kind, outcome@),
        kind == OperationKind::Delete && outcome is Affected ==> response_result_view(result)
            == Ok::<ResponseView, Fatal>(plain_response(204, BodyView::Empty)),
{
    match (kind, outcome) {
        (OperationKind::List, Outcome::Rows(rows)) => Ok(
            Response::new(200, Body::Json(Document::Quotes(rows))),
        ),
        (OperationKind::Fetch, Outcome::Row(Some(quote))) => Ok(
            Response::new(200, Body::Json(Document::Quote(quote))),
        ),
        (OperationKind::Fetch, Outcome::Row(None)) => Ok(
            Response::new(200, Body::Json(Document::Null)),
        ),
        (OperationKind::Insert, Outcome::Row(Some(quote))) => Ok(
            Response::new(201, Body::Json(Document::Quote(quote))),
        ),
        (OperationKind::Update, Outcome::Row(Some(quote))) => Ok(
            Response::new(200, Body::Json(Document::Quote(quote))),
        ),
        (OperationKind::Update, Outcome::Row(None)) => Ok(Response::new(200, Body::Empty)),
        (OperationKind::Delete, Outcome::Affected(_)) => Ok(Response::new(204, Body::Empty)),
        _ => Err(Fatal::Storage),
    }
}

} // verus!
