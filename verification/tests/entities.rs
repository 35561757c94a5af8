//! The per-entity statement builders and validation hooks.

use crud_core::prelude::{BindValue, Check, Database, DatabaseFetchAll, MatchParent};
use crud_core::types::dummy::Dummy;
use crud_core::types::sub_dummy::SubDummy;

fn dummy(id: i64, name: &str, is_valid: Option<bool>) -> Dummy {
    Dummy { id_dummy: id, name: name.to_string(), is_valid }
}

fn sub_dummy(id: i64, parent: i64, name: &str, is_valid: Option<bool>) -> SubDummy {
    SubDummy { id_sub_dummy: id, id_dummy: parent, name: name.to_string(), is_valid }
}

#[test]
fn dummy_insert_statement() {
    let q = dummy(1, "name", None).insert_query();
    assert_eq!(q.sql, "INSERT INTO dummy VALUES (?, ?) RETURNING id_dummy");
    assert_eq!(
        q.binds,
        vec![BindValue::Int(1), BindValue::Text("name".to_string())]
    );
}

#[test]
fn dummy_update_statement() {
    let q = dummy(1, "name-new", None).update_query();
    assert_eq!(q.sql, "UPDATE dummy SET name = ? WHERE id_dummy = ?");
    assert_eq!(
        q.binds,
        vec![BindValue::Text("name-new".to_string()), BindValue::Int(1)]
    );
}

#[test]
fn dummy_delete_and_fetch_statements() {
    let d = Dummy::delete_query(7);
    assert_eq!(d.sql, "DELETE FROM dummy WHERE id_dummy = ?");
    assert_eq!(d.binds, vec![BindValue::Int(7)]);
    let f = Dummy::fetch_one_query(7);
    assert_eq!(f.sql, "SELECT * FROM dummy WHERE id_dummy = ?");
    assert_eq!(f.binds, vec![BindValue::Int(7)]);
}

#[test]
fn dummy_count_statement() {
    let q = Dummy::count_query();
    assert_eq!(q.sql, "SELECT count(id_dummy) FROM dummy");
    assert!(q.binds.is_empty());
}

#[test]
fn dummy_order_fields() {
    assert_eq!(
        Dummy::create_query_order("name".to_string()),
        Some("ORDER BY name".to_string())
    );
    assert_eq!(
        Dummy::create_query_order("id_dummy".to_string()),
        Some("ORDER BY id_dummy".to_string())
    );
    assert_eq!(Dummy::create_query_order("is_valid".to_string()), None);
}

#[test]
fn dummy_checks_follow_flag() {
    assert!(dummy(1, "n", None).check_create().is_ok());
    assert!(dummy(1, "n", Some(true)).check_create().is_ok());
    assert!(dummy(1, "n", Some(false)).check_create().is_err());
    assert!(dummy(1, "n", Some(false))
        .check_update(dummy(1, "o", None))
        .is_err());
    assert!(dummy(1, "n", Some(false)).check_delete().is_err());
    assert!(dummy(1, "n", None).check_delete().is_ok());
}

#[test]
fn sub_dummy_insert_statement() {
    let q = sub_dummy(2, 1, "sub-name", None).insert_query();
    assert_eq!(
        q.sql,
        "INSERT INTO sub_dummy VALUES (?, ?, ?) RETURNING id_sub_dummy"
    );
    assert_eq!(
        q.binds,
        vec![
            BindValue::Int(2),
            BindValue::Text("sub-name".to_string()),
            BindValue::Int(1),
        ]
    );
}

#[test]
fn sub_dummy_update_statement() {
    let q = sub_dummy(2, 1, "sub-name", None).update_query();
    assert_eq!(
        q.sql,
        "UPDATE sub_dummy SET name = ?, id_dummy = ? WHERE id_sub_dummy = ?"
    );
    assert_eq!(
        q.binds,
        vec![
            BindValue::Text("sub-name".to_string()),
            BindValue::Int(1),
            BindValue::Int(2),
        ]
    );
}

#[test]
fn sub_dummy_parent_join() {
    let q = SubDummy::fetch_parent_query(2, 1);
    assert_eq!(
        q.sql,
        "SELECT b.* FROM sub_dummy a INNER JOIN dummy b ON a.id_dummy = b.id_dummy WHERE a.id_dummy = ? AND a.id_sub_dummy = ?"
    );
    assert_eq!(q.binds, vec![BindValue::Int(2), BindValue::Int(1)]);
}

#[test]
fn sub_dummy_parent_key() {
    let mut s = sub_dummy(3, 9, "n", None);
    assert_eq!(s.get_parent_id(), 9);
}

#[test]
fn sub_dummy_checks_follow_flag() {
    assert!(sub_dummy(1, 1, "n", None).check_create().is_ok());
    assert!(sub_dummy(1, 1, "n", Some(false)).check_create().is_err());
    assert!(sub_dummy(1, 1, "n", Some(false)).check_delete().is_err());
}

#[test]
fn field_declarations() {
    assert_eq!(Dummy::field_parent(), "");
    assert_eq!(Dummy::table(), "dummy");
    assert_eq!(Dummy::fields_text(), vec!["name"]);
    assert_eq!(Dummy::fields_numeric(), vec!["id_dummy"]);
    assert!(Dummy::fields_float().is_empty());
    assert_eq!(SubDummy::field_parent(), "id_dummy");
    assert_eq!(SubDummy::table(), "sub_dummy");
    assert_eq!(SubDummy::fields_numeric(), vec!["id_sub_dummy"]);
}
