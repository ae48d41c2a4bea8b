use quotes::operation::{Operation, OperationKind};
use quotes::quote::Quote;
use quotes::statement::{
    delete_statement, fetch_statement, insert_statement, list_statement, update_statement, Param,
    Returns, SqlType, Statement, DELETE_SQL, FETCH_SQL, INSERT_SQL, LIST_SQL,
};
use rust_decimal::Decimal;

fn empty_quote() -> Quote {
    Quote { id: None, quote: None, characters: None, stardate: None, episode: None }
}

fn full_quote() -> Quote {
    Quote {
        id: Some(99),
        quote: Some(String::from("Live long and prosper")),
        characters: Some(String::from("Spock")),
        stardate: Some(Decimal::new(33727, 1)),
        episode: Some(1),
    }
}

#[test]
fn list_statement_takes_at_most_twenty_by_episode() {
    let statement = list_statement();
    assert_eq!(
        statement.sql,
        "SELECT rowid, quote, characters, stardate, episode FROM quotes ORDER BY episode asc LIMIT 20;"
    );
    assert_eq!(statement.sql, LIST_SQL);
    assert!(statement.sql.ends_with(" ORDER BY episode asc LIMIT 20;"));
    assert!(statement.params.is_empty());
    assert_eq!(statement.returns, Returns::Rows);
    assert!(statement.types().is_empty());
}

#[test]
fn fetch_statement_binds_the_identifier() {
    let statement = fetch_statement(17);
    assert_eq!(
        statement.sql,
        "SELECT rowid, quote, characters, stardate, episode FROM quotes WHERE rowid=$1;"
    );
    assert_eq!(statement.sql, FETCH_SQL);
    assert_eq!(statement.params, vec![Param::Integer(Some(17))]);
    assert_eq!(statement.returns, Returns::Row);
    assert_eq!(statement.types(), vec![SqlType::Int8]);
}

#[test]
fn insert_statement_binds_the_four_fields() {
    let statement = insert_statement(full_quote());
    assert_eq!(
        statement.sql,
        "INSERT INTO quotes (quote, characters, stardate, episode) VALUES ($1, $2, $3, $4) RETURNING rowid, quote, characters, stardate, episode;"
    );
    assert_eq!(statement.sql, INSERT_SQL);
    assert_eq!(
        statement.params,
        vec![
            Param::Text(Some(String::from("Live long and prosper"))),
            Param::Text(Some(String::from("Spock"))),
            Param::Numeric(Some(Decimal::new(33727, 1))),
            Param::Integer(Some(1)),
        ]
    );
    assert_eq!(statement.returns, Returns::Row);
    assert_eq!(
        statement.types(),
        vec![SqlType::Varchar, SqlType::Varchar, SqlType::Numeric, SqlType::Int8]
    );
}

#[test]
fn insert_statement_binds_absent_fields_as_null() {
    let statement = insert_statement(empty_quote());
    assert_eq!(statement.sql, INSERT_SQL);
    assert_eq!(
        statement.params,
        vec![Param::Text(None), Param::Text(None), Param::Numeric(None), Param::Integer(None)]
    );
    assert_eq!(
        statement.types(),
        vec![SqlType::Varchar, SqlType::Varchar, SqlType::Numeric, SqlType::Int8]
    );
}

#[test]
fn insert_statement_leaves_the_identifier_to_the_table() {
    let mut with_id = full_quote();
    with_id.id = Some(5);
    let mut without_id = full_quote();
    without_id.id = None;
    assert_eq!(insert_statement(with_id), insert_statement(without_id));
}

#[test]
fn delete_statement_binds_the_identifier() {
    let statement = delete_statement(-3);
    assert_eq!(statement.sql, "DELETE FROM quotes WHERE rowid = $1");
    assert_eq!(statement.sql, DELETE_SQL);
    assert_eq!(statement.params, vec![Param::Integer(Some(-3))]);
    assert_eq!(statement.returns, Returns::Count);
    assert_eq!(statement.types(), vec![SqlType::Int8]);
}

#[test]
fn update_of_one_field_assigns_that_field_only() {
    let mut quote = empty_quote();
    quote.episode = Some(2);
    let statement = update_statement(1, quote);
    assert_eq!(
        statement.sql,
        "UPDATE quotes SET episode=$1 WHERE rowid=$2 RETURNING rowid, quote, characters, stardate, episode;"
    );
    assert_eq!(statement.params, vec![Param::Integer(Some(2)), Param::Integer(Some(1))]);
    assert_eq!(statement.returns, Returns::Row);
    assert_eq!(statement.types(), vec![SqlType::Int8, SqlType::Int8]);
}

#[test]
fn update_of_all_fields_assigns_them_in_order() {
    let statement = update_statement(7, full_quote());
    assert_eq!(
        statement.sql,
        "UPDATE quotes SET quote=$1, characters=$2, episode=$3, stardate=$4 WHERE rowid=$5 RETURNING rowid, quote, characters, stardate, episode;"
    );
    assert_eq!(
        statement.params,
        vec![
            Param::Text(Some(String::from("Live long and prosper"))),
            Param::Text(Some(String::from("Spock"))),
            Param::Integer(Some(1)),
            Param::Numeric(Some(Decimal::new(33727, 1))),
            Param::Integer(Some(7)),
        ]
    );
    assert_eq!(
        statement.types(),
        vec![SqlType::Varchar, SqlType::Varchar, SqlType::Int8, SqlType::Numeric, SqlType::Int8]
    );
}

#[test]
fn update_of_text_and_stardate_skips_the_fields_between() {
    let mut quote = empty_quote();
    quote.quote = Some(String::from("Fascinating"));
    quote.stardate = Some(Decimal::new(15132, 1));
    let statement = update_statement(3, quote);
    assert_eq!(
        statement.sql,
        "UPDATE quotes SET quote=$1, stardate=$2 WHERE rowid=$3 RETURNING rowid, quote, characters, stardate, episode;"
    );
    assert_eq!(
        statement.params,
        vec![
            Param::Text(Some(String::from("Fascinating"))),
            Param::Numeric(Some(Decimal::new(15132, 1))),
            Param::Integer(Some(3)),
        ]
    );
}

#[test]
fn update_of_characters_and_episode() {
    let mut quote = empty_quote();
    quote.characters = Some(String::from("Kirk"));
    quote.episode = Some(12);
    let statement = update_statement(4, quote);
    assert_eq!(
        statement.sql,
        "UPDATE quotes SET characters=$1, episode=$2 WHERE rowid=$3 RETURNING rowid, quote, characters, stardate, episode;"
    );
    assert_eq!(
        statement.params,
        vec![Param::Text(Some(String::from("Kirk"))), Param::Integer(Some(12)), Param::Integer(Some(4))]
    );
}

#[test]
fn update_never_assigns_the_identifier() {
    let mut quote = empty_quote();
    quote.id = Some(1000);
    quote.characters = Some(String::from("Uhura"));
    let statement = update_statement(4, quote);
    assert_eq!(
        statement.sql,
        "UPDATE quotes SET characters=$1 WHERE rowid=$2 RETURNING rowid, quote, characters, stardate, episode;"
    );
    assert_eq!(
        statement.params,
        vec![Param::Text(Some(String::from("Uhura"))), Param::Integer(Some(4))]
    );
}

#[test]
fn update_of_no_field_fetches_the_row() {
    let statement = update_statement(4, empty_quote());
    assert_eq!(
        statement.sql,
        "SELECT rowid, quote, characters, stardate, episode FROM quotes WHERE rowid=$1;"
    );
    assert_eq!(statement.params, vec![Param::Integer(Some(4))]);
    assert_eq!(statement.returns, Returns::Row);
    assert_eq!(statement.types(), vec![SqlType::Int8]);
    assert_eq!(statement, fetch_statement(4));
}

#[test]
fn update_of_the_identifier_alone_fetches_the_row() {
    let mut quote = empty_quote();
    quote.id = Some(1000);
    assert_eq!(update_statement(4, quote), fetch_statement(4));
}

#[test]
fn update_of_every_subset_numbers_the_placeholders_from_one() {
    for mask in 1..16u32 {
        let quote = Quote {
            id: None,
            quote: if mask & 1 != 0 { Some(String::from("q")) } else { None },
            characters: if mask & 2 != 0 { Some(String::from("c")) } else { None },
            episode: if mask & 4 != 0 { Some(3) } else { None },
            stardate: if mask & 8 != 0 { Some(Decimal::new(5, 0)) } else { None },
        };
        let mut assignments: Vec<String> = Vec::new();
        let mut params: Vec<Param> = Vec::new();
        if mask & 1 != 0 {
            params.push(Param::Text(Some(String::from("q"))));
            assignments.push(format!("quote=${}", params.len()));
        }
        if mask & 2 != 0 {
            params.push(Param::Text(Some(String::from("c"))));
            assignments.push(format!("characters=${}", params.len()));
        }
        if mask & 4 != 0 {
            params.push(Param::Integer(Some(3)));
            assignments.push(format!("episode=${}", params.len()));
        }
        if mask & 8 != 0 {
            params.push(Param::Numeric(Some(Decimal::new(5, 0))));
            assignments.push(format!("stardate=${}", params.len()));
        }
        params.push(Param::Integer(Some(11)));
        let sql = format!(
            "UPDATE quotes SET {} WHERE rowid=${} RETURNING rowid, quote, characters, stardate, episode;",
            assignments.join(", "),
            params.len()
        );
        let statement = update_statement(11, quote);
        assert_eq!(statement, Statement { sql, params, returns: Returns::Row });
    }
}

#[test]
fn update_keeps_values_out_of_the_text() {
    let hostile = "x' WHERE 1=1; DROP TABLE quotes; --";
    let mut quote = empty_quote();
    quote.quote = Some(String::from(hostile));
    quote.characters = Some(String::from("$1, rowid=$2"));
    let statement = update_statement(8, quote);
    assert_eq!(
        statement.sql,
        "UPDATE quotes SET quote=$1, characters=$2 WHERE rowid=$3 RETURNING rowid, quote, characters, stardate, episode;"
    );
    assert!(!statement.sql.contains("DROP"));
    assert_eq!(
        statement.params,
        vec![
            Param::Text(Some(String::from(hostile))),
            Param::Text(Some(String::from("$1, rowid=$2"))),
            Param::Integer(Some(8)),
        ]
    );
}

#[test]
fn update_keeps_texts_of_any_script_whole() {
    let mut quote = empty_quote();
    quote.quote = Some(String::from("\u{4f60}\u{597d} \u{1f596} na\u{00ef}ve"));
    let statement = update_statement(8, quote);
    assert_eq!(
        statement.params[0],
        Param::Text(Some(String::from("\u{4f60}\u{597d} \u{1f596} na\u{00ef}ve")))
    );
}

#[test]
fn every_value_has_the_type_of_its_kind() {
    assert_eq!(Param::Text(None).sql_type(), SqlType::Varchar);
    assert_eq!(Param::Text(Some(String::from("a"))).sql_type(), SqlType::Varchar);
    assert_eq!(Param::Numeric(None).sql_type(), SqlType::Numeric);
    assert_eq!(Param::Numeric(Some(Decimal::new(1, 0))).sql_type(), SqlType::Numeric);
    assert_eq!(Param::Integer(None).sql_type(), SqlType::Int8);
    assert_eq!(Param::Integer(Some(1)).sql_type(), SqlType::Int8);
}

#[test]
fn every_operation_has_its_kind_and_statement() {
    assert_eq!(Operation::List.kind(), OperationKind::List);
    assert_eq!(Operation::Fetch { id: 2 }.kind(), OperationKind::Fetch);
    assert_eq!(Operation::Insert { quote: full_quote() }.kind(), OperationKind::Insert);
    assert_eq!(Operation::Update { id: 2, quote: full_quote() }.kind(), OperationKind::Update);
    assert_eq!(Operation::Delete { id: 2 }.kind(), OperationKind::Delete);

    assert_eq!(Operation::List.statement(), list_statement());
    assert_eq!(Operation::Fetch { id: 2 }.statement(), fetch_statement(2));
    assert_eq!(Operation::Insert { quote: full_quote() }.statement(), insert_statement(full_quote()));
    assert_eq!(
        Operation::Update { id: 2, quote: full_quote() }.statement(),
        update_statement(2, full_quote())
    );
    assert_eq!(Operation::Delete { id: 2 }.statement(), delete_statement(2));
}
