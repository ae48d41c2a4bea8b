use quotes::failure::Fatal;
use quotes::handler::{respond, Outcome};
use quotes::operation::OperationKind;
use quotes::quote::Quote;
use quotes::response::{Body, Document, Response};
use rust_decimal::Decimal;

fn row(id: i64, episode: Option<i64>) -> Quote {
    Quote {
        id: Some(id),
        quote: Some(format!("quote {}", id)),
        characters: Some(String::from("Spock")),
        stardate: Some(Decimal::new(id, 1)),
        episode,
    }
}

fn response(status_code: u16, body: Body) -> Response {
    Response {
        status_code,
        headers: Vec::new(),
        multi_value_headers: Vec::new(),
        body,
        is_base64_encoded: false,
    }
}

const KINDS: [OperationKind; 5] = [
    OperationKind::List,
    OperationKind::Fetch,
    OperationKind::Insert,
    OperationKind::Update,
    OperationKind::Delete,
];

#[test]
fn list_answers_with_the_rows_in_order() {
    let rows = vec![row(3, Some(1)), row(1, Some(1)), row(2, Some(5)), row(9, None)];
    assert_eq!(
        respond(OperationKind::List, Outcome::Rows(rows.clone())),
        Ok(response(200, Body::Json(Document::Quotes(rows))))
    );
}

#[test]
fn list_of_nothing_answers_with_an_empty_array() {
    assert_eq!(
        respond(OperationKind::List, Outcome::Rows(Vec::new())),
        Ok(response(200, Body::Json(Document::Quotes(Vec::new()))))
    );
}

#[test]
fn list_keeps_as_many_rows_as_the_table_gave() {
    let rows: Vec<Quote> = (0..20).map(|i| row(i, Some(i / 3))).collect();
    match respond(OperationKind::List, Outcome::Rows(rows.clone())) {
        Ok(Response { status_code: 200, body: Body::Json(Document::Quotes(listed)), .. }) => {
            assert_eq!(listed.len(), 20);
            assert_eq!(listed, rows);
            assert!(listed.windows(2).all(|pair| pair[0].episode <= pair[1].episode));
        }
        other => panic!("{:?}", other),
    }
}

#[test]
fn fetch_answers_with_the_row() {
    assert_eq!(
        respond(OperationKind::Fetch, Outcome::Row(Some(row(4, Some(2))))),
        Ok(response(200, Body::Json(Document::Quote(row(4, Some(2))))))
    );
}

#[test]
fn fetch_of_nothing_answers_with_null() {
    assert_eq!(
        respond(OperationKind::Fetch, Outcome::Row(None)),
        Ok(response(200, Body::Json(Document::Null)))
    );
}

#[test]
fn insert_answers_created_with_the_stored_row() {
    assert_eq!(
        respond(OperationKind::Insert, Outcome::Row(Some(row(1, Some(1))))),
        Ok(response(201, Body::Json(Document::Quote(row(1, Some(1))))))
    );
}

#[test]
fn insert_without_a_stored_row_fails() {
    assert_eq!(respond(OperationKind::Insert, Outcome::Row(None)), Err(Fatal::Storage));
}

#[test]
fn update_answers_with_the_row() {
    assert_eq!(
        respond(OperationKind::Update, Outcome::Row(Some(row(1, Some(2))))),
        Ok(response(200, Body::Json(Document::Quote(row(1, Some(2))))))
    );
}

#[test]
fn update_of_nothing_answers_without_a_body() {
    assert_eq!(
        respond(OperationKind::Update, Outcome::Row(None)),
        Ok(response(200, Body::Empty))
    );
}

#[test]
fn delete_answers_no_content() {
    assert_eq!(
        respond(OperationKind::Delete, Outcome::Affected(1)),
        Ok(response(204, Body::Empty))
    );
}

#[test]
fn delete_of_nothing_is_no_error() {
    assert_eq!(
        respond(OperationKind::Delete, Outcome::Affected(0)),
        Ok(response(204, Body::Empty))
    );
    assert_eq!(
        respond(OperationKind::Delete, Outcome::Affected(0)),
        respond(OperationKind::Delete, Outcome::Affected(1))
    );
    assert_eq!(
        respond(OperationKind::Delete, Outcome::Affected(u64::MAX)),
        Ok(response(204, Body::Empty))
    );
}

#[test]
fn a_failure_of_the_table_is_fatal() {
    for kind in KINDS {
        assert_eq!(respond(kind, Outcome::Failed), Err(Fatal::Storage));
    }
}

#[test]
fn an_answer_of_the_wrong_shape_is_fatal() {
    let rows = || Outcome::Rows(vec![row(1, None)]);
    let one = || Outcome::Row(Some(row(1, None)));
    let none = || Outcome::Row(None);
    let count = || Outcome::Affected(1);
    assert_eq!(respond(OperationKind::List, one()), Err(Fatal::Storage));
    assert_eq!(respond(OperationKind::List, none()), Err(Fatal::Storage));
    assert_eq!(respond(OperationKind::List, count()), Err(Fatal::Storage));
    assert_eq!(respond(OperationKind::Fetch, rows()), Err(Fatal::Storage));
    assert_eq!(respond(OperationKind::Fetch, count()), Err(Fatal::Storage));
    assert_eq!(respond(OperationKind::Insert, rows()), Err(Fatal::Storage));
    assert_eq!(respond(OperationKind::Insert, count()), Err(Fatal::Storage));
    assert_eq!(respond(OperationKind::Update, rows()), Err(Fatal::Storage));
    assert_eq!(respond(OperationKind::Update, count()), Err(Fatal::Storage));
    assert_eq!(respond(OperationKind::Delete, rows()), Err(Fatal::Storage));
    assert_eq!(respond(OperationKind::Delete, one()), Err(Fatal::Storage));
    assert_eq!(respond(OperationKind::Delete, none()), Err(Fatal::Storage));
}

#[test]
fn no_response_sets_a_header() {
    let outcomes = [
        (OperationKind::List, Outcome::Rows(vec![row(1, None)])),
        (OperationKind::Fetch, Outcome::Row(None)),
        (OperationKind::Insert, Outcome::Row(Some(row(1, None)))),
        (OperationKind::Update, Outcome::Row(None)),
        (OperationKind::Delete, Outcome::Affected(0)),
    ];
    for (kind, outcome) in outcomes {
        let response = respond(kind, outcome).unwrap();
        assert!(response.headers.is_empty());
        assert!(response.multi_value_headers.is_empty());
        assert!(!response.is_base64_encoded);
    }
}
