use schema_model::annotation::{Annotation, Payload};
use schema_model::diagnostic::{Diagnostic, Location};

fn word(name: &str, at: usize) -> Annotation {
    Annotation { name: name.to_string(), payload: Payload::Word, location: Location::Source(at) }
}

fn value(name: &str, ident: &str, at: usize) -> Annotation {
    Annotation {
        name: name.to_string(),
        payload: Payload::Value(ident.to_string()),
        location: Location::Source(at),
    }
}

fn list(name: &str, items: Vec<Annotation>, at: usize) -> Annotation {
    Annotation { name: name.to_string(), payload: Payload::List(items), location: Location::Source(at) }
}

fn report(at: usize, message: &str) -> Diagnostic {
    Diagnostic { location: Location::Source(at), message: message.to_string() }
}

#[test]
fn with_name_finds_nothing_in_an_empty_set() {
    assert_eq!(Annotation::with_name(&[], "table_name"), None);
}

#[test]
fn with_name_finds_nothing_under_another_name() {
    let attrs = vec![word("derive", 1), value("table_names", "x", 2)];
    assert_eq!(Annotation::with_name(&attrs, "table_name"), None);
}

#[test]
fn with_name_finds_the_first_of_several() {
    let attrs = vec![
        word("derive", 1),
        value("table_name", "first", 2),
        value("table_name", "second", 3),
    ];
    assert_eq!(Annotation::with_name(&attrs, "table_name"), Some(&attrs[1]));
    assert_eq!(Annotation::with_name(&attrs, "derive"), Some(&attrs[0]));
}

#[test]
fn nested_hands_out_the_items_of_a_list() {
    let attr = list("primary_key", vec![word("a", 2), value("b", "c", 3)], 1);
    let expected = vec![word("a", 2), value("b", "c", 3)];
    assert_eq!(attr.nested(), Ok(&expected));
}

#[test]
fn nested_reports_what_is_no_list() {
    assert_eq!(
        word("primary_key", 4).nested(),
        Err(report(4, "`primary_key` must be in the form `primary_key(...)`"))
    );
    assert_eq!(
        value("primary_key", "id", 5).nested(),
        Err(report(5, "`primary_key` must be in the form `primary_key(...)`"))
    );
}

#[test]
fn expect_word_hands_out_the_name() {
    assert_eq!(word("user_id", 1).expect_word(), Ok("user_id".to_string()));
}

#[test]
fn expect_word_reports_a_payload() {
    assert_eq!(
        value("user_id", "x", 7).expect_word(),
        Err(report(7, "`user_id` must be a bare word"))
    );
    assert_eq!(
        list("user_id", vec![], 8).expect_word(),
        Err(report(8, "`user_id` must be a bare word"))
    );
}

#[test]
fn expect_ident_value_hands_out_the_identifier() {
    assert_eq!(value("table_name", "people", 1).expect_ident_value(), Ok("people".to_string()));
}

#[test]
fn expect_ident_value_reports_other_payloads() {
    assert_eq!(
        word("table_name", 3).expect_ident_value(),
        Err(report(3, "`table_name` must be in the form `table_name = \"value\"`"))
    );
    assert_eq!(
        list("table_name", vec![word("people", 5)], 4).expect_ident_value(),
        Err(report(4, "`table_name` must be in the form `table_name = \"value\"`"))
    );
}

#[test]
fn expect_words_keeps_the_order_of_the_list() {
    let attr = list("primary_key", vec![word("c", 2), word("a", 3), word("b", 4), word("a", 5)], 1);
    assert_eq!(
        attr.expect_words(),
        Ok(vec!["c".to_string(), "a".to_string(), "b".to_string(), "a".to_string()])
    );
}

#[test]
fn expect_words_of_an_empty_list() {
    assert_eq!(list("primary_key", vec![], 1).expect_words(), Ok(vec![]));
}

#[test]
fn expect_words_reports_the_first_item_that_is_no_word() {
    let attr = list(
        "primary_key",
        vec![word("a", 2), value("b", "x", 3), list("c", vec![], 4)],
        1,
    );
    assert_eq!(attr.expect_words(), Err(report(3, "`b` must be a bare word")));
}

#[test]
fn expect_words_reports_what_is_no_list() {
    assert_eq!(
        value("primary_key", "id", 6).expect_words(),
        Err(report(6, "`primary_key` must be in the form `primary_key(...)`"))
    );
}

#[test]
fn ident_named_is_none_without_the_annotation() {
    let attrs = vec![word("derive", 1)];
    assert_eq!(Annotation::ident_named(&attrs, "table_name"), Ok(None));
}

#[test]
fn ident_named_reads_the_first_annotation_of_that_name() {
    let attrs = vec![value("table_name", "people", 1), word("table_name", 2)];
    assert_eq!(Annotation::ident_named(&attrs, "table_name"), Ok(Some("people".to_string())));
    let attrs = vec![word("table_name", 2), value("table_name", "people", 1)];
    assert_eq!(
        Annotation::ident_named(&attrs, "table_name"),
        Err(report(2, "`table_name` must be in the form `table_name = \"value\"`"))
    );
}
