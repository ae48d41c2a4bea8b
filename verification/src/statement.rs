//! The statements that the service sends to the table `quotes`.
//!
//! A statement is a text with numbered placeholders and the values bound to
//! them. No value is ever written into the text.

use crate::buffer::TextBuffer;
use crate::quote::{text_view, Column, Quote, QuoteView};
use rust_decimal::Decimal;
use vstd::prelude::*;
use vstd::string::StringExecFns;

verus! {

/// The type that the table declares for a bound value.
#[derive(Clone, Copy, Debug, PartialEq, Eq, Structural)]
pub enum SqlType {
    Varchar,
    Numeric,
    Int8,
}

/// A value bound to a placeholder. An absent value is bound as null.
#[derive(Clone, Debug, PartialEq, Eq)]
pub enum Param {
    Text(Option<String>),
    Numeric(Option<Decimal>),
    Integer(Option<i64>),
}

/// A bound value with its text as a sequence of characters.
pub ghost enum ParamView {
    Text(Option<Seq<char>>),
    Numeric(Option<Decimal>),
    Integer(Option<i64>),
}

impl View for Param {
    type V = ParamView;

    open spec fn view(&self) -> ParamView {
        match *self {
            Param::Text(text) => ParamView::Text(text_view(text)),
            Param::Numeric(number) => ParamView::Numeric(number),
            Param::Integer(number) => ParamView::Integer(number),
        }
    }
}

impl ParamView {
    /// The type that the table declares for the value.
    pub open spec fn sql_type(self) -> SqlType {
        match self {
            ParamView::Text(_) => SqlType::Varchar,
            ParamView::Numeric(_) => SqlType::Numeric,
            ParamView::Integer(_) => SqlType::Int8,
        }
    }
}

impl Param {
    /// The type that the table declares for the value.
    pub fn sql_type(&self) -> (sql_type: SqlType)
        ensures
            sql_type == self@.sql_type(),
    {
        match self {
            Param::Text(_) => SqlType::Varchar,
            Param::Numeric(_) => SqlType::Numeric,
            Param::Integer(_) => SqlType::Int8,
        }
    }
}

/// What the table hands back for a statement.
#[derive(Clone, Copy, Debug, PartialEq, Eq, Structural)]
pub enum Returns {
    /// Any number of rows.
    Rows,
    /// One row or none.
    Row,
    /// The number of rows that the statement changed.
    Count,
}

/// A statement for the table `quotes`: its text, the values bound to the
/// placeholders `$1`, `$2`, ... in that order, and what comes back.
#[derive(Clone, Debug, PartialEq, Eq)]
pub struct Statement {
    pub sql: String,
    pub params: Vec<Param>,
    pub returns: Returns,
}

/// A statement with its text as a sequence of characters.
pub ghost struct StatementView {
    pub sql: Seq<char>,
    pub params: Seq<ParamView>,
    pub returns: Returns,
}

/// The bound values of a list of parameters, in the list's order.
pub open spec fn params_view(params: Seq<Param>) -> Seq<ParamView> {
    Seq::new(params.len(), |i: int| params[i]@)
}

impl View for Statement {
    type V = StatementView;

    open spec fn view(&self) -> StatementView {
        StatementView {
            sql: self.sql@,
            params: params_view(self.params@),
            returns: self.returns,
        }
    }
}

impl StatementView {
    /// The types that the table declares for the bound values, in their order.
    pub open spec fn types(self) -> Seq<SqlType> {
        Seq::new(self.params.len(), |i: int| self.params[i].sql_type())
    }
}

impl Statement {
    /// The types that the table declares for the bound values, in their
    /// order: the types to prepare the statement with.
    pub fn types(&self) -> (types: Vec<SqlType>)
        ensures
            types@ == self@.types(),
    {
        let mut types: Vec<SqlType> = Vec::new();
        let mut i: usize = 0;
        while i < self.params.len()
            invariant
                i <= self.params@.len(),
                types@.len() == i,
                forall|k: int| 0 <= k < i ==> types@[k] == self.params@[k]@.sql_type(),
            decreases self.params@.len() - i,
        {
            types.push(self.params[i].sql_type());
            i = i + 1;
        }
        assert(types@ =~= self@.types());
        types
    }
}

/// Text of the statement that lists quotes: at most twenty, by ascending episode.
pub const LIST_SQL: &'static str =
    "SELECT rowid, quote, characters, stardate, episode FROM quotes ORDER BY episode asc LIMIT 20;";

/// Text of the statement that fetches the quote with the identifier bound to `$1`.
pub const FETCH_SQL: &'static str =
    "SELECT rowid, quote, characters, stardate, episode FROM quotes WHERE rowid=$1;";

/// Text of the statement that inserts a quote and returns the stored row.
pub const INSERT_SQL: &'static str =
    "INSERT INTO quotes (quote, characters, stardate, episode) VALUES ($1, $2, $3, $4) RETURNING rowid, quote, characters, stardate, episode;";

/// Text of the statement that deletes the quote with the identifier bound to `$1`.
pub const DELETE_SQL: &'static str = "DELETE FROM quotes WHERE rowid = $1";

/// The statement that lists quotes.
pub open spec fn list_statement_spec() -> StatementView {
    StatementView { sql: LIST_SQL@, params: Seq::empty(), returns: Returns::Rows }
}

/// The statement that lists quotes: at most twenty rows, ordered by ascending
/// episode. It binds no value.
pub fn list_statement() -> (statement: Statement)
    ensures
        statement@ == list_statement_spec(),
{
    let statement = Statement {
        sql: String::from_str(LIST_SQL),
        params: Vec::new(),
        returns: Returns::Rows,
    };
    assert(statement@.params =~= Seq::empty());
    statement
}

/// The statement that fetches one quote.
pub open spec fn fetch_statement_spec(id: i64) -> StatementView {
    StatementView {
        sql: FETCH_SQL@,
        params: seq![ParamView::Integer(Some(id))],
        returns: Returns::Row,
    }
}

/// The statement that fetches the quote with the given identifier, which it
/// binds to `$1`.
pub fn fetch_statement(id: i64) -> (statement: Statement)
    ensures
        statement@ == fetch_statement_spec(id),
{
    let mut params: Vec<Param> = Vec::new();
    params.push(Param::Integer(Some(id)));
    let statement = Statement { sql: String::from_str(FETCH_SQL), params, returns: Returns::Row };
    assert(statement@.params =~= seq![ParamView::Integer(Some(id))]);
    statement
}

/// The statement that inserts a quote.
pub open spec fn insert_statement_spec(quote: QuoteView) -> StatementView {
    StatementView {
        sql: INSERT_SQL@,
        params: seq![
            ParamView::Text(quote.quote),
            ParamView::Text(quote.characters),
            ParamView::Numeric(quote.stardate),
            ParamView::Integer(quote.episode),
        ],
        returns: Returns::Row,
    }
}

/// The statement that inserts a quote and returns the row as stored.
///
/// It binds the quote's text, characters, stardate and episode to `$1` to
/// `$4`, an absent field as null. The table assigns the identifier: the one
/// in `quote` is not used.
pub fn insert_statement(quote: Quote) -> (statement: Statement)
    ensures
        statement@ == insert_statement_spec(quote@),
{
    let Quote { id: _, quote: text, characters, stardate, episode } = quote;
    let mut params: Vec<Param> = Vec::new();
    params.push(Param::Text(text));
    params.push(Param::Text(characters));
    params.push(Param::Numeric(stardate));
    params.push(Param::Integer(episode));
    let statement = Statement { sql: String::from_str(INSERT_SQL), params, returns: Returns::Row };
    assert(statement@.params =~= insert_statement_spec(quote@).params);
    statement
}

/// The statement that deletes one quote.
pub open spec fn delete_statement_spec(id: i64) -> StatementView {
    StatementView {
        sql: DELETE_SQL@,
        params: seq![ParamView::Integer(Some(id))],
        returns: Returns::Count,
    }
}

/// The statement that deletes the quote with the given identifier, which it
/// binds to `$1`. The table answers with the number of rows deleted.
pub fn delete_statement(id: i64) -> (statement: Statement)
    ensures
        statement@ == delete_statement_spec(id),
{
    let mut params: Vec<Param> = Vec::new();
    params.push(Param::Integer(Some(id)));
    let statement = Statement {
        sql: String::from_str(DELETE_SQL),
        params,
        returns: Returns::Count,
    };
    assert(statement@.params =~= seq![ParamView::Integer(Some(id))]);
    statement
}

/// One assignment of an update: a column and the value it receives.
pub ghost struct Assignment {
    pub column: Column,
    pub value: ParamView,
}

/// The assignment that a payload asks for in one column, if any.
pub open spec fn assignment_for(quote: QuoteView, column: Column) -> Seq<Assignment> {
    match column {
        Column::Id => Seq::empty(),
        Column::Quote => if quote.quote is Some {
            seq![Assignment { column, value: ParamView::Text(quote.quote) }]
        } else {
            Seq::empty()
        },
        Column::Characters => if quote.characters is Some {
            seq![Assignment { column, value: ParamView::Text(quote.characters) }]
        } else {
            Seq::empty()
        },
        Column::Stardate => if quote.stardate is Some {
            seq![Assignment { column, value: ParamView::Numeric(quote.stardate) }]
        } else {
            Seq::empty()
        },
        Column::Episode => if quote.episode is Some {
            seq![Assignment { column, value: ParamView::Integer(quote.episode) }]
        } else {
            Seq::empty()
        },
    }
}

/// The assignments that a payload asks for: one for each field it holds but
/// the identifier, in the order text, characters, episode, stardate.
pub open spec fn assignments(quote: QuoteView) -> Seq<Assignment> {
    assignment_for(quote, Column::Quote) + assignment_for(quote, Column::Characters)
        + assignment_for(quote, Column::Episode) + assignment_for(quote, Column::Stardate)
}

/// A digit as text. Only the numbers 0 to 9 are digits.
pub open spec fn digit_text(digit: nat) -> Seq<char>
    recommends
        digit <= 9,
{
    if digit == 0 {
        "0"@
    } else if digit == 1 {
        "1"@
    } else if digit == 2 {
        "2"@
    } else if digit == 3 {
        "3"@
    } else if digit == 4 {
        "4"@
    } else if digit == 5 {
        "5"@
    } else if digit == 6 {
        "6"@
    } else if digit == 7 {
        "7"@
    } else if digit == 8 {
        "8"@
    } else {
        "9"@
    }
}

/// The placeholder with the given number, which is between 1 and 9: no
/// statement of this library binds more values than that.
pub open spec fn placeholder(number: nat) -> Seq<char>
    recommends
        1 <= number <= 9,
{
    "$"@ + digit_text(number)
}

/// The text of one assignment: the column, `=` and a placeholder.
pub open spec fn assignment_text(column: Column, number: nat) -> Seq<char>
    recommends
        1 <= number <= 9,
{
    column.spec_name() + "="@ + placeholder(number)
}

/// The text of the assignments to the given columns, separated by `, `. The
/// placeholders are numbered from 1 in the order of the columns, of which
/// there are at most 9.
pub open spec fn set_clause(columns: Seq<Column>) -> Seq<char>
    recommends
        columns.len() <= 9,
    decreases columns.len(),
{
    if columns.len() == 0 {
        Seq::empty()
    } else if columns.len() == 1 {
        assignment_text(columns[0], 1)
    } else {
        set_clause(columns.drop_last()) + ", "@ + assignment_text(
            columns.last(),
            columns.len(),
        )
    }
}

/// The text of the update that assigns the given columns, of which there
/// are between 1 and 8. The placeholder behind the last assignment's stands
/// for the identifier.
pub open spec fn update_sql(columns: Seq<Column>) -> Seq<char>
    recommends
        1 <= columns.len() <= 8,
{
    "UPDATE quotes SET "@ + set_clause(columns) + " WHERE rowid="@ + placeholder(
        columns.len() + 1,
    ) + " RETURNING rowid, quote, characters, stardate, episode;"@
}

/// The columns of a list of assignments, in the list's order.
pub open spec fn assigned_columns(assigned: Seq<Assignment>) -> Seq<Column> {
    Seq::new(assigned.len(), |i: int| assigned[i].column)
}

/// The values of a list of assignments, in the list's order.
pub open spec fn assigned_values(assigned: Seq<Assignment>) -> Seq<ParamView> {
    Seq::new(assigned.len(), |i: int| assigned[i].value)
}

/// The statement that updates one quote. Where the payload asks for no
/// assignment, it is the statement that fetches the quote: nothing changes,
/// and the row comes back as it stands.
pub open spec fn update_statement_spec(id: i64, quote: QuoteView) -> StatementView {
    if assignments(quote).len() == 0 {
        fetch_statement_spec(id)
    } else {
        StatementView {
            sql: update_sql(assigned_columns(assignments(quote))),
            params: assigned_values(assignments(quote)).push(ParamView::Integer(Some(id))),
            returns: Returns::Row,
        }
    }
}

/// A digit as text.
fn digit(value: usize) -> (text: &'static str)
    requires
        value <= 9,
    ensures
        text@ == digit_text(value as nat),
{
    if value == 0 {
        "0"
    } else if value == 1 {
        "1"
    } else if value == 2 {
        "2"
    } else if value == 3 {
        "3"
    } else if value == 4 {
        "4"
    } else if value == 5 {
        "5"
    } else if value == 6 {
        "6"
    } else if value == 7 {
        "7"
    } else if value == 8 {
        "8"
    } else {
        "9"
    }
}

/// Appends one assignment to the text of an update, and its value to the
/// bound values.
fn assign(
    buffer: &mut TextBuffer,
    params: &mut Vec<Param>,
    Ghost(assigned): Ghost<Seq<Assignment>>,
    column: Column,
    value: Param,
)
    requires
        old(buffer).well_formed(),
        old(buffer)@ == "UPDATE quotes SET "@ + set_clause(assigned_columns(assigned)),
        params_view(old(params)@) == assigned_values(assigned),
        assigned.len() < 8,
    ensures
        final(buffer).well_formed(),
        final(buffer)@ == "UPDATE quotes SET "@ + set_clause(
            assigned_columns(assigned.push(Assignment { column, value: value@ })),
        ),
        params_view(final(params)@) == assigned_values(
            assigned.push(Assignment { column, value: value@ }),
        ),
{
    let ghost longer = assigned.push(Assignment { column, value: value@ });
    assert(assigned_columns(longer).drop_last() =~= assigned_columns(assigned));
    assert(assigned_columns(longer).last() == column);
    assert(params_view(params@).len() == assigned.len());
    if params.len() > 0 {
        buffer.push(", ");
    }
    buffer.push(column.name());
    buffer.push("=");
    buffer.push("$");
    buffer.push(digit(params.len() + 1));
    assert(buffer@ =~= "UPDATE quotes SET "@ + set_clause(assigned_columns(longer)));
    let ghost before = params@;
    params.push(value);
    assert forall|i: int| 0 <= i < longer.len() implies params_view(params@)[i]
        == assigned_values(longer)[i] by {
        if i < assigned.len() {
            assert(params_view(before)[i] == assigned_values(assigned)[i]);
        }
    }
    assert(params_view(params@) =~= assigned_values(longer));
}

/// The statement that updates the quote with the given identifier and
/// returns the row as it stands afterwards.
///
/// The statement assigns the fields that `quote` holds and no other column:
/// text, characters, episode and stardate, in that order, each to a
/// placeholder of its own. The identifier is bound to the placeholder behind
/// them; the one in `quote` is not used.
///
/// A `quote` that holds none of the four fields asks for no change. The
/// statement is then the one that fetches the quote, so that the row comes
/// back as it stands.
pub fn update_statement(id: i64, quote: Quote) -> (statement: Statement)
    ensures
        statement@ == update_statement_spec(id, quote@),
{
    let ghost model = quote@;
    let Quote { id: _, quote: text, characters, stardate, episode } = quote;
    if text.is_none() && characters.is_none() && stardate.is_none() && episode.is_none() {
        assert(assignments(model) =~= Seq::empty());
        return fetch_statement(id);
    }
    assert(assignments(model).len() > 0);
    let mut buffer = TextBuffer::new();
    let mut params: Vec<Param> = Vec::new();
    let ghost mut assigned: Seq<Assignment> = Seq::empty();
    buffer.push("UPDATE quotes SET ");
    assert(assigned_columns(assigned) =~= Seq::empty());
    assert(buffer@ =~= "UPDATE quotes SET "@ + set_clause(assigned_columns(assigned)));
    assert(params_view(params@) =~= assigned_values(assigned));
    if text.is_some() {
        assign(&mut buffer, &mut params, Ghost(assigned), Column::Quote, Param::Text(text));
        proof {
            assigned = assigned.push(Assignment { column: Column::Quote, value: ParamView::Text(model.quote) });
        }
    }
    assert(assigned =~= assignment_for(model, Column::Quote));
    if characters.is_some() {
        assign(&mut buffer, &mut params, Ghost(assigned), Column::Characters, Param::Text(characters));
        proof {
            assigned = assigned.push(Assignment { column: Column::Characters, value: ParamView::Text(model.characters) });
        }
    }
    assert(assigned =~= assignment_for(model, Column::Quote) + assignment_for(model, Column::Characters));
    if episode.is_some() {
        assign(&mut buffer, &mut params, Ghost(assigned), Column::Episode, Param::Integer(episode));
        proof {
            assigned = assigned.push(Assignment { column: Column::Episode, value: ParamView::Integer(model.episode) });
        }
    }
    assert(assigned =~= assignment_for(model, Column::Quote) + assignment_for(model, Column::Characters)
        + assignment_for(model, Column::Episode));
    if stardate.is_some() {
        assign(&mut buffer, &mut params, Ghost(assigned), Column::Stardate, Param::Numeric(stardate));
        proof {
            assigned = assigned.push(Assignment { column: Column::Stardate, value: ParamView::Numeric(model.stardate) });
        }
    }
    assert(assigned =~= assignments(model));
    assert(params_view(params@).len() == assigned.len());
    buffer.push(" WHERE rowid=");
    buffer.push("$");
    buffer.push(digit(params.len() + 1));
    buffer.push(" RETURNING rowid, quote, characters, stardate, episode;");
    params.push(Param::Integer(Some(id)));
    let statement = Statement { sql: buffer.finish(), params, returns: Returns::Row };
    assert(statement@.sql =~= update_statement_spec(id, model).sql);
    assert(statement@.params =~= update_statement_spec(id, model).params);
    statement
}

} // verus!
