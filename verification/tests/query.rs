//! The search compiler: tokenizing, clause building, bind expansion.

use crud_core::prelude::{BindValue, DatabaseFetchAll, FieldMap, QueryToken};

struct QueryStruct;

impl DatabaseFetchAll for QueryStruct {
    // the declaration in spec form; never evaluated at run time
    fn spec_fields() -> FieldMap {
        panic!()
    }

    fn field_parent() -> &'static str {
        ""
    }

    fn fields_text() -> Vec<&'static str> {
        vec!["title", "name"]
    }

    fn fields_numeric() -> Vec<&'static str> {
        vec!["id", "size"]
    }

    fn fields_float() -> Vec<&'static str> {
        vec!["lat", "lon"]
    }

    fn fields_order() -> Vec<&'static str> {
        vec![]
    }

    fn table() -> &'static str {
        "query_struct"
    }
}

#[test]
fn query_tokens() {
    let mut tokens = QueryStruct::tokens("name 1 1.23".to_string()).into_iter();

    assert_eq!(tokens.next(), Some(QueryToken::Float("1".to_string())));
    assert_eq!(tokens.next(), Some(QueryToken::Float("1.23".to_string())));
    assert_eq!(tokens.next(), Some(QueryToken::Numeric(1)));
    assert_eq!(tokens.next(), Some(QueryToken::Text("%name%".to_string())));
    assert_eq!(tokens.next(), Some(QueryToken::Text("%1%".to_string())));
    assert_eq!(tokens.next(), Some(QueryToken::Text("%1.23%".to_string())));
    assert_eq!(tokens.next(), None);
}

#[test]
fn query_create_where() {
    let tokens = QueryStruct::tokens("name 1 1.23".to_string());

    let sql = QueryStruct::create_query_where(&tokens);

    assert_eq!(sql, Some("WHERE (lat = ? OR lon = ? OR lat = ? OR lon = ? OR id = ? OR size = ? OR title LIKE ? OR name LIKE ? OR title LIKE ? OR name LIKE ? OR title LIKE ? OR name LIKE ?)".to_string()))
}

#[test]
fn query_tokens_empty_search() {
    let tokens = QueryStruct::tokens(String::new());
    assert_eq!(tokens, vec![]);
}

#[test]
fn query_tokens_whitespace_only() {
    let tokens = QueryStruct::tokens("  \t \n ".to_string());
    assert_eq!(tokens, vec![]);
}

#[test]
fn query_where_empty_without_parent() {
    let sql = QueryStruct::create_query_where(&vec![]);
    assert_eq!(sql, None);
}

#[test]
fn query_fill_repeats_per_field() {
    let tokens = QueryStruct::tokens("name 1 1.23".to_string());
    let filled = QueryStruct::fill_query_where(tokens);
    // every token expands across two fields of its class
    assert_eq!(
        filled,
        vec![
            QueryToken::Float("1".to_string()),
            QueryToken::Float("1".to_string()),
            QueryToken::Float("1.23".to_string()),
            QueryToken::Float("1.23".to_string()),
            QueryToken::Numeric(1),
            QueryToken::Numeric(1),
            QueryToken::Text("%name%".to_string()),
            QueryToken::Text("%name%".to_string()),
            QueryToken::Text("%1%".to_string()),
            QueryToken::Text("%1%".to_string()),
            QueryToken::Text("%1.23%".to_string()),
            QueryToken::Text("%1.23%".to_string()),
        ]
    );
}

#[test]
fn query_order_unknown_name_ignored() {
    assert_eq!(QueryStruct::create_query_order("height".to_string()), None);
}

#[test]
fn query_binds_follow_token_order() {
    let tokens = QueryStruct::tokens("abc 7".to_string());
    let filled = QueryStruct::fill_query_where(tokens);
    let binds = crud_core::prelude::binds_of_tokens(filled);
    assert_eq!(
        binds,
        vec![
            BindValue::FloatWord("7".to_string()),
            BindValue::FloatWord("7".to_string()),
            BindValue::Int(7),
            BindValue::Int(7),
            BindValue::Text("%abc%".to_string()),
            BindValue::Text("%abc%".to_string()),
            BindValue::Text("%7%".to_string()),
            BindValue::Text("%7%".to_string()),
        ]
    );
}
