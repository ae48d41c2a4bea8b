//! The quote record and the columns of the table that stores it.

use rust_decimal::Decimal;
use vstd::prelude::*;

verus! {

/// `rust_decimal::Decimal`, the type of a stardate. The library hands such a
/// value on and never looks inside it.
#[verifier::external_type_specification]
#[verifier::external_body]
pub struct ExDecimal(Decimal);

/// One row of the table `quotes`.
///
/// The table assigns `id` when the row is inserted, and no statement of this
/// library changes it afterwards. Every other field may be absent: in a
/// stored row the column is then null, in the payload of an update the column
/// is left as it is.
#[derive(Clone, Debug, PartialEq, Eq)]
pub struct Quote {
    pub id: Option<i64>,
    pub quote: Option<String>,
    pub characters: Option<String>,
    pub stardate: Option<Decimal>,
    pub episode: Option<i64>,
}

/// A quote with its texts as sequences of characters.
pub ghost struct QuoteView {
    pub id: Option<i64>,
    pub quote: Option<Seq<char>>,
    pub characters: Option<Seq<char>>,
    pub stardate: Option<Decimal>,
    pub episode: Option<i64>,
}

/// The characters of a text that may be absent.
pub open spec fn text_view(text: Option<String>) -> Option<Seq<char>> {
    match text {
        Some(text) => Some(text@),
        None => None,
    }
}

impl View for Quote {
    type V = QuoteView;

    open spec fn view(&self) -> QuoteView {
        QuoteView {
            id: self.id,
            quote: text_view(self.quote),
            characters: text_view(self.characters),
            stardate: self.stardate,
            episode: self.episode,
        }
    }
}

/// The records of a list of quotes, in the list's order.
pub open spec fn quotes_view(quotes: Seq<Quote>) -> Seq<QuoteView> {
    Seq::new(quotes.len(), |i: int| quotes[i]@)
}

/// A column of the table `quotes`.
#[derive(Clone, Copy, Debug, PartialEq, Eq, Structural)]
pub enum Column {
    Id,
    Quote,
    Characters,
    Stardate,
    Episode,
}

impl Column {
    /// The column's name in the table.
    pub open spec fn spec_name(self) -> Seq<char> {
        match self {
            Column::Id => "rowid"@,
            Column::Quote => "quote"@,
            Column::Characters => "characters"@,
            Column::Stardate => "stardate"@,
            Column::Episode => "episode"@,
        }
    }

    /// The column's place in a row that a statement of this library
    /// returns, counted from zero.
    pub open spec fn spec_position(self) -> nat {
        match self {
            Column::Id => 0,
            Column::Quote => 1,
            Column::Characters => 2,
            Column::Stardate => 3,
            Column::Episode => 4,
        }
    }

    /// The column's name in the table.
    pub fn name(self) -> (name: &'static str)
        ensures
            name@ == self.spec_name(),
    {
        match self {
            Column::Id => "rowid",
            Column::Quote => "quote",
            Column::Characters => "characters",
            Column::Stardate => "stardate",
            Column::Episode => "episode",
        }
    }

    /// The column's place in a row that a statement of this library
    /// returns, counted from zero.
    pub fn position(self) -> (position: usize)
        ensures
            position == self.spec_position(),
    {
        match self {
            Column::Id => 0,
            Column::Quote => 1,
            Column::Characters => 2,
            Column::Stardate => 3,
            Column::Episode => 4,
        }
    }
}

impl QuoteView {
    /// Whether the record holds a value for a column.
    pub open spec fn supplies(self, column: Column) -> bool {
        match column {
            Column::Id => self.id is Some,
            Column::Quote => self.quote is Some,
            Column::Characters => self.characters is Some,
            Column::Stardate => self.stardate is Some,
            Column::Episode => self.episode is Some,
        }
    }
}

} // verus!
