use quotes::buffer::TextBuffer;
use quotes::failure::{ErrorClass, Fatal};
use quotes::handler::Method;
use quotes::quote::Column;
use quotes::text::same_text;

#[test]
fn served_methods_have_upper_case_names() {
    assert_eq!(Method::from_name("GET"), Method::Get);
    assert_eq!(Method::from_name("POST"), Method::Post);
    assert_eq!(Method::from_name("PUT"), Method::Put);
    assert_eq!(Method::from_name("DELETE"), Method::Delete);
}

#[test]
fn every_other_name_is_another_method() {
    for name in ["PATCH", "HEAD", "OPTIONS", "TRACE", "CONNECT", "", "get", "Get", "GET ", " GET", "GETS", "DELETED", "PUTT", "POS"] {
        assert_eq!(Method::from_name(name), Method::Other, "{:?}", name);
    }
}

#[test]
fn columns_bear_the_names_of_the_table() {
    assert_eq!(Column::Id.name(), "rowid");
    assert_eq!(Column::Quote.name(), "quote");
    assert_eq!(Column::Characters.name(), "characters");
    assert_eq!(Column::Stardate.name(), "stardate");
    assert_eq!(Column::Episode.name(), "episode");
}

#[test]
fn columns_come_back_in_the_order_of_the_returning_list() {
    let returned = "rowid, quote, characters, stardate, episode";
    let columns = [Column::Id, Column::Quote, Column::Characters, Column::Stardate, Column::Episode];
    let names: Vec<&str> = returned.split(", ").collect();
    for column in columns {
        assert_eq!(names[column.position()], column.name());
    }
    assert_eq!(Column::Id.position(), 0);
    assert_eq!(Column::Quote.position(), 1);
    assert_eq!(Column::Characters.position(), 2);
    assert_eq!(Column::Stardate.position(), 3);
    assert_eq!(Column::Episode.position(), 4);
}

#[test]
fn failures_are_classed_by_their_cause() {
    assert_eq!(Fatal::InvalidRowId.class(), ErrorClass::ClientInput);
    assert_eq!(Fatal::MalformedBody.class(), ErrorClass::ClientInput);
    assert_eq!(Fatal::Storage.class(), ErrorClass::Storage);
}

#[test]
fn texts_are_compared_character_by_character() {
    assert!(same_text("", ""));
    assert!(same_text("GET", "GET"));
    assert!(!same_text("GET", "GE"));
    assert!(!same_text("GE", "GET"));
    assert!(!same_text("GET", "GEt"));
    assert!(!same_text("GET", "PUT"));
    assert!(same_text("caf\u{00e9}", "caf\u{00e9}"));
    assert!(!same_text("caf\u{00e9}", "cafe\u{0301}"));
}

#[test]
fn a_buffer_holds_its_pieces_in_order() {
    let mut buffer = TextBuffer::new();
    buffer.push("UPDATE ");
    buffer.push("");
    buffer.push("quotes");
    buffer.push(" \u{2018}\u{00c6}nima\u{2019}");
    assert_eq!(buffer.finish(), "UPDATE quotes \u{2018}\u{00c6}nima\u{2019}");
}

#[test]
fn a_new_buffer_holds_the_empty_text() {
    assert_eq!(TextBuffer::new().finish(), "");
}
