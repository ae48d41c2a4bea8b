//! What holds of the service as a whole, proved from the contracts of its
//! functions.

use crate::failure::Fatal;
use crate::handler::{
    json_response, response_to, route_of, Method, OutcomeView, PayloadView, RequestView,
    RouteView,
};
use crate::operation::{OperationKind, OperationView};
use crate::quote::{Column, QuoteView};
use crate::response::{
    method_not_allowed, plain_response, rowid_required, BodyView, DocumentView, ResponseView,
};
use crate::rowid::{all_digits, digits_value, is_digit, rowid_value, signed_value};
use crate::statement::{
    assigned_columns, assigned_values, assignments, fetch_statement_spec,
    insert_statement_spec, update_statement_spec, Assignment, ParamView,
};
use vstd::prelude::*;

verus! {

/// The character of a digit.
pub open spec fn digit_char(digit: nat) -> char {
    if digit == 0 {
        '0'
    } else if digit == 1 {
        '1'
    } else if digit == 2 {
        '2'
    } else if digit == 3 {
        '3'
    } else if digit == 4 {
        '4'
    } else if digit == 5 {
        '5'
    } else if digit == 6 {
        '6'
    } else if digit == 7 {
        '7'
    } else if digit == 8 {
        '8'
    } else {
        '9'
    }
}

/// The decimal digits of a natural number, without leading zeros.
pub open spec fn natural_text(number: nat) -> Seq<char>
    decreases number,
{
    if number < 10 {
        seq![digit_char(number)]
    } else {
        natural_text(number / 10).push(digit_char(number % 10))
    }
}

/// The usual text of an identifier: its decimal digits, behind `-` where it
/// is negative.
pub open spec fn rowid_text(id: i64) -> Seq<char> {
    if id < 0 {
        seq!['-'] + natural_text((-id) as nat)
    } else {
        natural_text(id as nat)
    }
}

/// The digits of a number denote that number.
proof fn lemma_natural_text_value(number: nat)
    ensures
        natural_text(number).len() > 0,
        all_digits(natural_text(number)),
        digits_value(natural_text(number)) == number,
    decreases number,
{
    if number < 10 {
        let text = natural_text(number);
        assert(text.drop_last() =~= Seq::<char>::empty());
        assert(digits_value(text.drop_last()) == 0);
    } else {
        lemma_natural_text_value(number / 10);
        let shorter = natural_text(number / 10);
        let text = natural_text(number);
        assert(text.drop_last() =~= shorter);
        assert(text.last() == digit_char(number % 10));
        assert forall|i: int| 0 <= i < text.len() implies is_digit(#[trigger] text[i]) by {
            if i < shorter.len() {
                assert(is_digit(shorter[i]));
            }
        }
    }
}

/// Every identifier has a text, and the service reads that text as the
/// identifier.
pub proof fn law_rowid_text_is_read_back(id: i64)
    ensures
        rowid_value(rowid_text(id)) == Some(id),
{
    let text = rowid_text(id);
    if id < 0 {
        let digits = natural_text((-id) as nat);
        lemma_natural_text_value((-id) as nat);
        assert(text[0] == '-');
        assert(text.subrange(1, text.len() as int) =~= digits);
        assert(signed_value(text) == Some(id as int));
    } else {
        lemma_natural_text_value(id as nat);
        assert(is_digit(text[0]));
        assert(signed_value(text) == Some(id as int));
    }
}

/// A request with a method other than GET, POST, PUT and DELETE is answered
/// with 405 whatever else it holds, and no operation on the table comes of it.
pub proof fn law_other_method_is_refused(request: RequestView)
    requires
        request.method == Method::Other,
    ensures
        route_of(request) == Ok::<RouteView, Fatal>(RouteView::Respond(method_not_allowed())),
        method_not_allowed().status_code == 405,
{
}

/// A PUT or DELETE without the parameter `rowid` is answered with 400
/// whatever its body, and no operation on the table comes of it.
pub proof fn law_change_without_rowid_is_refused(request: RequestView)
    requires
        request.method == Method::Put || request.method == Method::Delete,
        request.rowid is None,
    ensures
        route_of(request) == Ok::<RouteView, Fatal>(RouteView::Respond(rowid_required())),
        rowid_required().status_code == 400,
{
}

/// A delete is answered with 204 and no body whatever number of rows it
/// removed: one that found nothing to remove is no error.
pub proof fn law_delete_of_nothing_is_no_error(affected: u64)
    ensures
        response_to(OperationKind::Delete, OutcomeView::Affected(affected)) == Ok::<
            ResponseView,
            Fatal,
        >(plain_response(204, BodyView::Empty)),
        response_to(OperationKind::Delete, OutcomeView::Affected(affected)) == response_to(
            OperationKind::Delete,
            OutcomeView::Affected(0),
        ),
{
}

/// The service's part in reading back what was inserted.
///
/// A POST with a quote inserts that quote, each of its four fields bound to
/// its own column. The row that the table stored is the body of the
/// response. A GET whose `rowid` is the text of that row's identifier fetches
/// the row with that identifier, and what the table hands back is again the
/// body of the response.
pub proof fn law_insert_then_fetch(
    payload: QuoteView,
    stored: QuoteView,
    id: i64,
    rowid: Option<Seq<char>>,
    body: PayloadView,
)
    ensures
        route_of(RequestView { method: Method::Post, rowid, body: PayloadView::Quote(payload) })
            == Ok::<RouteView, Fatal>(RouteView::Run(OperationView::Insert { quote: payload })),
        insert_statement_spec(payload).params == seq![
            ParamView::Text(payload.quote),
            ParamView::Text(payload.characters),
            ParamView::Numeric(payload.stardate),
            ParamView::Integer(payload.episode),
        ],
        response_to(OperationKind::Insert, OutcomeView::Row(Some(stored))) == Ok::<
            ResponseView,
            Fatal,
        >(json_response(201, DocumentView::Quote(stored))),
        route_of(RequestView { method: Method::Get, rowid: Some(rowid_text(id)), body }) == Ok::<
            RouteView,
            Fatal,
        >(RouteView::Run(OperationView::Fetch { id })),
        fetch_statement_spec(id).params == seq![ParamView::Integer(Some(id))],
        response_to(OperationKind::Fetch, OutcomeView::Row(Some(stored))) == Ok::<
            ResponseView,
            Fatal,
        >(json_response(200, DocumentView::Quote(stored))),
{
    law_rowid_text_is_read_back(id);
}

/// The service's part in listing quotes: the rows are the body of the
/// response as the table handed them back, none added, none left out, in
/// the same order.
pub proof fn law_list_keeps_rows(rows: Seq<QuoteView>)
    ensures
        response_to(OperationKind::List, OutcomeView::Rows(rows)) == Ok::<ResponseView, Fatal>(
            json_response(200, DocumentView::Quotes(rows)),
        ),
{
}

impl QuoteView {
    /// A field as a value that can be bound to a placeholder.
    pub open spec fn value(self, column: Column) -> ParamView {
        match column {
            Column::Id => ParamView::Integer(self.id),
            Column::Quote => ParamView::Text(self.quote),
            Column::Characters => ParamView::Text(self.characters),
            Column::Stardate => ParamView::Numeric(self.stardate),
            Column::Episode => ParamView::Integer(self.episode),
        }
    }

    /// The record with one field replaced. A value of another kind than the
    /// column's leaves the record as it is.
    pub open spec fn with(self, column: Column, value: ParamView) -> QuoteView {
        match (column, value) {
            (Column::Id, ParamView::Integer(id)) => QuoteView { id, ..self },
            (Column::Quote, ParamView::Text(quote)) => QuoteView { quote, ..self },
            (Column::Characters, ParamView::Text(characters)) => QuoteView {
                characters,
                ..self
            },
            (Column::Stardate, ParamView::Numeric(stardate)) => QuoteView { stardate, ..self },
            (Column::Episode, ParamView::Integer(episode)) => QuoteView { episode, ..self },
            _ => self,
        }
    }
}

/// A row after each assignment of a list has replaced the field of its
/// column, first to last.
pub open spec fn assigned_to(row: QuoteView, assigned: Seq<Assignment>) -> QuoteView
    decreases assigned.len(),
{
    if assigned.len() == 0 {
        row
    } else {
        assigned_to(row, assigned.drop_last()).with(assigned.last().column, assigned.last().value)
    }
}

/// An update assigns a column exactly when the payload holds a value for it,
/// and never the identifier. It assigns no column twice, and binds to each
/// the payload's value.
pub proof fn law_update_assigns_what_is_supplied(id: i64, quote: QuoteView, column: Column)
    ensures
        assigned_columns(assignments(quote)).contains(column) <==> column != Column::Id
            && quote.supplies(column),
        assigned_columns(assignments(quote)).no_duplicates(),
        forall|i: int|
            0 <= i < assignments(quote).len() ==> (#[trigger] assignments(quote)[i]).value
                == quote.value(assignments(quote)[i].column),
        update_statement_spec(id, quote).params == assigned_values(assignments(quote)).push(
            ParamView::Integer(Some(id)),
        ),
{
    let assigned = assignments(quote);
    let columns = assigned_columns(assigned);
    if column != Column::Id && quote.supplies(column) {
        let place = choose|i: int| 0 <= i < assigned.len() && assigned[i].column == column;
        assert(exists|i: int| 0 <= i < assigned.len() && assigned[i].column == column) by {
            lemma_supplied_column_is_assigned(quote, column);
        }
        assert(columns[place] == column);
    }
}

/// A column that the payload supplies stands in the list of assignments.
proof fn lemma_supplied_column_is_assigned(quote: QuoteView, column: Column)
    requires
        column != Column::Id,
        quote.supplies(column),
    ensures
        exists|i: int|
            0 <= i < assignments(quote).len() && (#[trigger] assignments(quote)[i]).column
                == column,
{
    let assigned = assignments(quote);
    let first = if quote.quote is Some {
        1int
    } else {
        0int
    };
    let second = first + if quote.characters is Some {
        1int
    } else {
        0int
    };
    let third = second + if quote.episode is Some {
        1int
    } else {
        0int
    };
    match column {
        Column::Id => {},
        Column::Quote => {
            assert(assigned[0].column == column);
        },
        Column::Characters => {
            assert(assigned[first].column == column);
        },
        Column::Episode => {
            assert(assigned[second].column == column);
        },
        Column::Stardate => {
            assert(assigned[third].column == column);
        },
    }
}

/// An update is sparse. Where each assignment replaces the field of its
/// column, the row afterwards holds the payload's value in every field that
/// the payload supplies, and in every other field what it held before. Its
/// identifier stays.
pub proof fn law_update_is_sparse(row: QuoteView, quote: QuoteView)
    ensures
        assigned_to(row, assignments(quote)) == (QuoteView {
            id: row.id,
            quote: if quote.quote is Some {
                quote.quote
            } else {
                row.quote
            },
            characters: if quote.characters is Some {
                quote.characters
            } else {
                row.characters
            },
            stardate: if quote.stardate is Some {
                quote.stardate
            } else {
                row.stardate
            },
            episode: if quote.episode is Some {
                quote.episode
            } else {
                row.episode
            },
        }),
{
    let assigned = assignments(quote);
    reveal_with_fuel(assigned_to, 5);
    assert(assigned.len() <= 4);
    if assigned.len() >= 1 {
        let one = assigned.drop_last();
        if one.len() >= 1 {
            let two = one.drop_last();
            if two.len() >= 1 {
                let three = two.drop_last();
                assert(three.len() <= 1);
            }
        }
    }
}

/// An update that supplies no field changes nothing. Its statement is the
/// one that fetches the quote, the row is left as it stands whatever it
/// holds, and the answer is 200 with that row.
pub proof fn law_update_of_nothing_reads_the_row(id: i64, quote: QuoteView, row: QuoteView)
    requires
        quote.quote is None,
        quote.characters is None,
        quote.stardate is None,
        quote.episode is None,
    ensures
        update_statement_spec(id, quote) == fetch_statement_spec(id),
        assigned_to(row, assignments(quote)) == row,
        response_to(OperationKind::Update, OutcomeView::Row(Some(row))) == Ok::<
            ResponseView,
            Fatal,
        >(json_response(200, DocumentView::Quote(row))),
{
    assert(assignments(quote) =~= Seq::empty());
}

} // verus!
