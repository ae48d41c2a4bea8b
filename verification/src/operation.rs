//! The five operations on the table `quotes`.

use crate::quote::{Quote, QuoteView};
use crate::statement::{
    delete_statement, delete_statement_spec, fetch_statement, fetch_statement_spec,
    insert_statement, insert_statement_spec, list_statement, list_statement_spec,
    update_statement, update_statement_spec, Statement, StatementView,
};
use vstd::prelude::*;

verus! {

/// One operation on the table, with what it needs.
#[derive(Clone, Debug, PartialEq, Eq)]
pub enum Operation {
    /// List quotes.
    List,
    /// Fetch the quote with this identifier.
    Fetch { id: i64 },
    /// Insert this quote.
    Insert { quote: Quote },
    /// Give the quote with this identifier the fields that `quote` holds.
    Update { id: i64, quote: Quote },
    /// Delete the quote with this identifier.
    Delete { id: i64 },
}

/// An operation with its quote as a record.
pub ghost enum OperationView {
    List,
    Fetch { id: i64 },
    Insert { quote: QuoteView },
    Update { id: i64, quote: QuoteView },
    Delete { id: i64 },
}

impl View for Operation {
    type V = OperationView;

    open spec fn view(&self) -> OperationView {
        match *self {
            Operation::List => OperationView::List,
            Operation::Fetch { id } => OperationView::Fetch { id },
            Operation::Insert { quote } => OperationView::Insert { quote: quote@ },
            Operation::Update { id, quote } => OperationView::Update { id, quote: quote@ },
            Operation::Delete { id } => OperationView::Delete { id },
        }
    }
}

/// Which of the five operations one is.
#[derive(Clone, Copy, Debug, PartialEq, Eq, Structural)]
pub enum OperationKind {
    List,
    Fetch,
    Insert,
    Update,
    Delete,
}

impl OperationView {
    /// Which of the five operations this is.
    pub open spec fn kind(self) -> OperationKind {
        match self {
            OperationView::List => OperationKind::List,
            OperationView::Fetch { .. } => OperationKind::Fetch,
            OperationView::Insert { .. } => OperationKind::Insert,
            OperationView::Update { .. } => OperationKind::Update,
            OperationView::Delete { .. } => OperationKind::Delete,
        }
    }

    /// The statement that carries the operation out.
    pub open spec fn statement(self) -> StatementView {
        match self {
            OperationView::List => list_statement_spec(),
            OperationView::Fetch { id } => fetch_statement_spec(id),
            OperationView::Insert { quote } => insert_statement_spec(quote),
            OperationView::Update { id, quote } => update_statement_spec(id, quote),
            OperationView::Delete { id } => delete_statement_spec(id),
        }
    }
}

impl Operation {
    /// Which of the five operations this is.
    pub fn kind(&self) -> (kind: OperationKind)
        ensures
            kind == self@.kind(),
    {
        match self {
            Operation::List => OperationKind::List,
            Operation::Fetch { .. } => OperationKind::Fetch,
            Operation::Insert { .. } => OperationKind::Insert,
            Operation::Update { .. } => OperationKind::Update,
            Operation::Delete { .. } => OperationKind::Delete,
        }
    }

    /// The one statement that carries the operation out.
    pub fn statement(self) -> (statement: Statement)
        ensures
            statement@ == self@.statement(),
    {
        match self {
            Operation::List => list_statement(),
            Operation::Fetch { id } => fetch_statement(id),
            Operation::Insert { quote } => insert_statement(quote),
            Operation::Update { id, quote } => update_statement(id, quote),
            Operation::Delete { id } => delete_statement(id),
        }
    }
}

} // verus!
