//! The single-resource dispatcher, driven with concrete storage
//! results.

use crud_core::crud::{
    create, create_response, delete, delete_response, retrieve, sub_create, sub_delete,
    sub_retrieve, sub_update, update, update_response, CreateStep, DeleteStep, Payload,
    StorageError, UpdateStep,
};
use crud_core::types::dummy::Dummy;
use crud_core::types::sub_dummy::SubDummy;

fn dummy(id: i64, name: &str, is_valid: Option<bool>) -> Dummy {
    Dummy { id_dummy: id, name: name.to_string(), is_valid }
}

fn sub_dummy(id: i64, parent: i64, name: &str, is_valid: Option<bool>) -> SubDummy {
    SubDummy { id_sub_dummy: id, id_dummy: parent, name: name.to_string(), is_valid }
}

#[test]
fn create_valid_orders_insert_unchanged() {
    let d = dummy(1, "name", Some(true));
    match create(d) {
        CreateStep::Insert(t) => {
            assert_eq!(t, dummy(1, "name", Some(true)));
        },
        CreateStep::Rejected(_) => panic!("valid candidate rejected"),
    }
}

#[test]
fn create_absent_flag_is_valid() {
    match create(dummy(1, "name", None)) {
        CreateStep::Insert(_) => {},
        CreateStep::Rejected(_) => panic!("absent flag rejected"),
    }
}

#[test]
fn create_invalid_rejects_without_insert() {
    match create(dummy(1, "name", Some(false))) {
        CreateStep::Insert(_) => panic!("invalid candidate ordered an insert"),
        CreateStep::Rejected(r) => {
            assert_eq!(r.status, 422);
            assert!(r.headers.is_empty());
        },
    }
}

#[test]
fn create_ok_location() {
    let r = create_response::<Dummy>("/dummy/", Ok(1));
    assert_eq!(r.status, 201);
    assert_eq!(r.headers[0].name, "Location");
    assert_eq!(r.headers[0].value, "/dummy/1");
}

#[test]
fn create_ok_x_item_id() {
    let r = create_response::<Dummy>("/dummy/", Ok(1));
    assert_eq!(r.status, 201);
    assert_eq!(r.headers[1].name, "X-Item-ID");
    assert_eq!(r.headers[1].value, "1");
}

#[test]
fn create_storage_failure_is_406() {
    let r = create_response::<Dummy>("/dummy/", Err(StorageError));
    assert_eq!(r.status, 406);
}

#[test]
fn retrieve_found_returns_row_unchanged() {
    let r = retrieve(Ok(dummy(1, "name-1", None)));
    assert_eq!(r.status, 200);
    match r.payload {
        Payload::One(t) => assert_eq!(t, dummy(1, "name-1", None)),
        _ => panic!("retrieve did not carry the row"),
    }
}

#[test]
fn retrieve_missing_is_404() {
    let r = retrieve::<Dummy>(Err(StorageError));
    assert_eq!(r.status, 404);
}

#[test]
fn update_ok_orders_write() {
    let s = update(dummy(1, "name-new", None), Ok(dummy(1, "name", None)));
    match s {
        UpdateStep::Update(t) => assert_eq!(t, dummy(1, "name-new", None)),
        UpdateStep::Rejected(_) => panic!("valid update rejected"),
    }
    assert_eq!(update_response::<Dummy>(Ok(())).status, 200);
}

#[test]
fn update_missing_is_404() {
    match update(dummy(1, "name-new", None), Err(StorageError)) {
        UpdateStep::Rejected(r) => assert_eq!(r.status, 404),
        UpdateStep::Update(_) => panic!("update of a missing row ordered a write"),
    }
}

#[test]
fn update_invalid_is_422() {
    match update(dummy(1, "x", Some(false)), Ok(dummy(1, "name", None))) {
        UpdateStep::Rejected(r) => assert_eq!(r.status, 422),
        UpdateStep::Update(_) => panic!("invalid update ordered a write"),
    }
}

#[test]
fn update_storage_failure_is_406() {
    assert_eq!(update_response::<Dummy>(Err(StorageError)).status, 406);
}

#[test]
fn delete_ok_is_204() {
    match delete(Ok(dummy(1, "name", None)), 1) {
        DeleteStep::Delete(id) => assert_eq!(id, 1),
        DeleteStep::Rejected(_) => panic!("valid delete rejected"),
    }
    assert_eq!(delete_response::<Dummy>(Ok(())).status, 204);
}

#[test]
fn delete_of_deleted_id_is_404_not_204() {
    // the row is already gone: the fetch fails, and the second delete
    // answers 404 without ordering another write
    match delete::<Dummy>(Err(StorageError), 1) {
        DeleteStep::Rejected(r) => assert_eq!(r.status, 404),
        DeleteStep::Delete(_) => panic!("second delete ordered a write"),
    }
}

#[test]
fn delete_invalid_is_422() {
    match delete(Ok(dummy(1, "name", Some(false))), 1) {
        DeleteStep::Rejected(r) => assert_eq!(r.status, 422),
        DeleteStep::Delete(_) => panic!("invalid delete ordered a write"),
    }
}

#[test]
fn sub_create_missing_parent_is_404() {
    match sub_create::<Dummy, SubDummy>(Err(StorageError), sub_dummy(1, 1, "n", None)) {
        CreateStep::Rejected(r) => assert_eq!(r.status, 404),
        CreateStep::Insert(_) => panic!("orphan create ordered an insert"),
    }
}

#[test]
fn sub_create_with_parent_inserts() {
    let parent = dummy(1, "name", None);
    match sub_create::<Dummy, SubDummy>(Ok(parent), sub_dummy(1, 1, "n", None)) {
        CreateStep::Insert(t) => assert_eq!(t, sub_dummy(1, 1, "n", None)),
        CreateStep::Rejected(_) => panic!("nested create rejected"),
    }
}

#[test]
fn sub_retrieve_mismatch_is_404() {
    // parent 2 owns no child 1: the ownership join found nothing
    let r = sub_retrieve::<Dummy, SubDummy>(Err(StorageError), Ok(sub_dummy(1, 1, "name-1", None)));
    assert_eq!(r.status, 404);
    assert_eq!(r.payload, Payload::Empty);
}

#[test]
fn sub_retrieve_owned_returns_child() {
    let r = sub_retrieve::<Dummy, SubDummy>(
        Ok(dummy(1, "name-1", None)),
        Ok(sub_dummy(1, 1, "name-1", None)),
    );
    assert_eq!(r.status, 200);
    match r.payload {
        Payload::One(t) => assert_eq!(t, sub_dummy(1, 1, "name-1", None)),
        _ => panic!("nested retrieve did not carry the child"),
    }
}

#[test]
fn sub_update_mismatch_orders_no_write() {
    // parent 2 owns no child 1: 404, and the child row stays untouched
    match sub_update::<Dummy, SubDummy>(
        Err(StorageError),
        sub_dummy(1, 1, "name-new", None),
        Ok(sub_dummy(1, 1, "name-1", None)),
    ) {
        UpdateStep::Rejected(r) => assert_eq!(r.status, 404),
        UpdateStep::Update(_) => panic!("mismatched nested update ordered a write"),
    }
}

#[test]
fn sub_delete_mismatch_orders_no_write() {
    match sub_delete::<Dummy, SubDummy>(
        Err(StorageError),
        Ok(sub_dummy(1, 1, "name-1", None)),
        1,
    ) {
        DeleteStep::Rejected(r) => assert_eq!(r.status, 404),
        DeleteStep::Delete(_) => panic!("mismatched nested delete ordered a write"),
    }
}

#[test]
fn sub_delete_owned_deletes() {
    match sub_delete::<Dummy, SubDummy>(
        Ok(dummy(1, "name", None)),
        Ok(sub_dummy(1, 1, "name-1", None)),
        1,
    ) {
        DeleteStep::Delete(id) => assert_eq!(id, 1),
        DeleteStep::Rejected(_) => panic!("owned nested delete rejected"),
    }
}
