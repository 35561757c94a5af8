//! The listing dispatcher: window checks, the count gate, the compiled
//! statement, and the paged response.

use crud_core::crud::{Payload, StorageError};
use crud_core::list::{
    list, list_response, list_window, sub_list, ListStep, PageWindow, QueryParams,
};
use crud_core::prelude::BindValue;
use crud_core::types::dummy::Dummy;
use crud_core::types::sub_dummy::SubDummy;

fn params(
    search: Option<&str>,
    order: Option<&str>,
    offset: Option<i64>,
    limit: Option<i64>,
) -> QueryParams {
    QueryParams {
        search: search.map(|s| s.to_string()),
        order: order.map(|s| s.to_string()),
        offset,
        limit,
    }
}

fn dummy(id: i64, name: &str) -> Dummy {
    Dummy { id_dummy: id, name: name.to_string(), is_valid: None }
}

#[test]
fn window_defaults() {
    let w = list_window(&params(None, None, None, None)).unwrap();
    assert_eq!(w, PageWindow { offset: 0, limit: 50 });
}

#[test]
fn window_accepts_bounds() {
    assert!(list_window(&params(None, None, Some(0), Some(1))).is_ok());
    assert!(list_window(&params(None, None, Some(5), Some(250))).is_ok());
}

#[test]
fn window_rejects_out_of_range() {
    assert_eq!(list_window(&params(None, None, Some(-1), None)), Err(400));
    assert_eq!(list_window(&params(None, None, None, Some(0))), Err(400));
    assert_eq!(list_window(&params(None, None, None, Some(-3))), Err(400));
    assert_eq!(list_window(&params(None, None, None, Some(251))), Err(400));
}

#[test]
fn list_zero_rows_is_404() {
    match list::<Dummy>(params(None, None, None, None), None, Ok(0)) {
        ListStep::Early(r) => assert_eq!(r.status, 404),
        ListStep::Fetch(..) => panic!("empty table ordered a fetch"),
    }
}

#[test]
fn list_bad_window_is_400_before_anything_else() {
    match list::<Dummy>(params(None, None, None, Some(251)), None, Ok(100)) {
        ListStep::Early(r) => assert_eq!(r.status, 400),
        ListStep::Fetch(..) => panic!("bad window ordered a fetch"),
    }
}

#[test]
fn list_count_failure_is_500() {
    match list::<Dummy>(params(None, None, None, None), None, Err(StorageError)) {
        ListStep::Early(r) => assert_eq!(r.status, 500),
        ListStep::Fetch(..) => panic!("failed count ordered a fetch"),
    }
}

#[test]
fn list_compiles_plain_statement() {
    match list::<Dummy>(params(None, None, None, None), None, Ok(100)) {
        ListStep::Fetch(q, total) => {
            assert_eq!(total, 100);
            assert_eq!(q.sql, "SELECT * FROM dummy   limit ?, ?");
            assert_eq!(q.binds, vec![BindValue::Int(0), BindValue::Int(50)]);
        },
        ListStep::Early(_) => panic!("listing stopped early"),
    }
}

#[test]
fn list_offset_and_limit_bound_in_order() {
    match list::<Dummy>(params(None, None, Some(5), Some(5)), None, Ok(100)) {
        ListStep::Fetch(q, _) => {
            assert_eq!(q.binds, vec![BindValue::Int(5), BindValue::Int(5)]);
        },
        ListStep::Early(_) => panic!("listing stopped early"),
    }
}

#[test]
fn list_search_compiles_filter() {
    match list::<Dummy>(params(Some("-9"), None, None, None), None, Ok(10)) {
        ListStep::Fetch(q, _) => {
            assert_eq!(q.sql, "SELECT * FROM dummy WHERE (id_dummy = ? OR name LIKE ?)  limit ?, ?");
            assert_eq!(
                q.binds,
                vec![
                    BindValue::Int(-9),
                    BindValue::Text("%-9%".to_string()),
                    BindValue::Int(0),
                    BindValue::Int(50),
                ]
            );
        },
        ListStep::Early(_) => panic!("listing stopped early"),
    }
}

#[test]
fn list_order_appended_when_declared() {
    match list::<Dummy>(params(None, Some("name"), None, None), None, Ok(10)) {
        ListStep::Fetch(q, _) => {
            assert_eq!(q.sql, "SELECT * FROM dummy  ORDER BY name limit ?, ?");
        },
        ListStep::Early(_) => panic!("listing stopped early"),
    }
}

#[test]
fn list_order_unknown_ignored() {
    match list::<Dummy>(params(None, Some("bogus"), None, None), None, Ok(10)) {
        ListStep::Fetch(q, _) => {
            assert_eq!(q.sql, "SELECT * FROM dummy   limit ?, ?");
        },
        ListStep::Early(_) => panic!("listing stopped early"),
    }
}

#[test]
fn list_paging_headers() {
    let rows: Vec<Dummy> = (1..=50).map(|i| dummy(i, &format!("name-{}", i))).collect();
    let r = list_response(100, Ok(rows));
    assert_eq!(r.status, 200);
    assert_eq!(r.headers[0].name, "X-Paging-MaxLimit");
    assert_eq!(r.headers[0].value, "250");
    assert_eq!(r.headers[1].name, "X-Paging-Total");
    assert_eq!(r.headers[1].value, "100");
    assert_eq!(r.headers[2].name, "X-Paging-Size");
    assert_eq!(r.headers[2].value, "50");
    match r.payload {
        Payload::Many(v) => assert_eq!(v.len(), 50),
        _ => panic!("page payload missing"),
    }
}

#[test]
fn list_empty_page_is_404() {
    let r = list_response::<Dummy>(100, Ok(Vec::new()));
    assert_eq!(r.status, 404);
}

#[test]
fn list_fetch_failure_is_500() {
    let r = list_response::<Dummy>(100, Err(StorageError));
    assert_eq!(r.status, 500);
}

#[test]
fn sub_list_missing_parent_is_404() {
    match sub_list::<Dummy, SubDummy>(
        Err(StorageError),
        params(None, None, None, None),
        1,
        Ok(10),
    ) {
        ListStep::Early(r) => assert_eq!(r.status, 404),
        ListStep::Fetch(..) => panic!("orphan listing ordered a fetch"),
    }
}

#[test]
fn sub_list_scopes_to_parent() {
    match sub_list::<Dummy, SubDummy>(
        Ok(dummy(1, "name-1")),
        params(None, None, None, None),
        1,
        Ok(10),
    ) {
        ListStep::Fetch(q, _) => {
            assert_eq!(q.sql, "SELECT * FROM sub_dummy WHERE id_dummy = ?  limit ?, ?");
            assert_eq!(
                q.binds,
                vec![BindValue::Int(1), BindValue::Int(0), BindValue::Int(50)]
            );
        },
        ListStep::Early(_) => panic!("owned listing stopped early"),
    }
}

#[test]
fn sub_list_search_includes_parent_clause() {
    match sub_list::<Dummy, SubDummy>(
        Ok(dummy(1, "name-1")),
        params(Some("sub-name-1"), None, None, None),
        1,
        Ok(10),
    ) {
        ListStep::Fetch(q, _) => {
            assert_eq!(
                q.sql,
                "SELECT * FROM sub_dummy WHERE id_dummy = ? AND (name LIKE ?)  limit ?, ?"
            );
            assert_eq!(
                q.binds,
                vec![
                    BindValue::Int(1),
                    BindValue::Text("%sub-name-1%".to_string()),
                    BindValue::Int(0),
                    BindValue::Int(50),
                ]
            );
        },
        ListStep::Early(_) => panic!("owned listing stopped early"),
    }
}

#[test]
fn list_offset_keeps_default_limit() {
    match list::<Dummy>(params(None, None, Some(5), None), None, Ok(100)) {
        ListStep::Fetch(q, _) => {
            assert_eq!(q.binds, vec![BindValue::Int(5), BindValue::Int(50)]);
        },
        ListStep::Early(_) => panic!("listing stopped early"),
    }
}
