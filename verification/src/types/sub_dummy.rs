//! A nested entity owned by a parent record through a foreign key.

use vstd::prelude::*;
use vstd::string::*;

use crate::prelude::{
    BindModel, BindValue, Check, Database, DatabaseFetchAll, FieldMap, MatchParent, Query,
    binds_model,
};
use crate::types::dummy::Dummy;

verus! {

/// A nested record: its own key, the key of the parent that owns it, a
/// searchable name, and an optional validity flag read by the hooks.
#[derive(Debug, PartialEq)]
pub struct SubDummy {
    pub id_sub_dummy: i64,
    pub id_dummy: i64,
    pub name: String,
    pub is_valid: Option<bool>,
}

/// Whether the validity flag accepts the record: absent or `true`.
pub open spec fn sub_dummy_valid(is_valid: Option<bool>) -> bool {
    match is_valid {
        Some(b) => b,
        None => true,
    }
}

impl Database for SubDummy {
    open spec fn spec_insert_query(&self) -> (Seq<char>, Seq<BindModel>) {
        (
            "INSERT INTO sub_dummy VALUES (?, ?, ?) RETURNING id_sub_dummy"@,
            seq![
                BindModel::Int(self.id_sub_dummy as int),
                BindModel::Text(self.name@),
                BindModel::Int(self.id_dummy as int),
            ],
        )
    }

    open spec fn spec_update_query(&self) -> (Seq<char>, Seq<BindModel>) {
        (
            "UPDATE sub_dummy SET name = ?, id_dummy = ? WHERE id_sub_dummy = ?"@,
            seq![
                BindModel::Text(self.name@),
                BindModel::Int(self.id_dummy as int),
                BindModel::Int(self.id_sub_dummy as int),
            ],
        )
    }

    open spec fn spec_delete_query(id: int) -> (Seq<char>, Seq<BindModel>) {
        ("DELETE FROM sub_dummy WHERE id_sub_dummy = ?"@, seq![BindModel::Int(id)])
    }

    open spec fn spec_fetch_one_query(id: int) -> (Seq<char>, Seq<BindModel>) {
        ("SELECT * FROM sub_dummy WHERE id_sub_dummy = ?"@, seq![BindModel::Int(id)])
    }

    open spec fn spec_count_query() -> Seq<char> {
        "SELECT count(id_sub_dummy) FROM sub_dummy"@
    }

    fn insert_query(&self) -> (q: Query) {
        let mut binds: Vec<BindValue> = Vec::new();
        binds.push(BindValue::Int(self.id_sub_dummy));
        binds.push(BindValue::Text(self.name.clone()));
        binds.push(BindValue::Int(self.id_dummy));
        proof {
            assert(binds_model(binds@) =~= self.spec_insert_query().1);
        }
        Query {
            sql: String::from_str("INSERT INTO sub_dummy VALUES (?, ?, ?) RETURNING id_sub_dummy"),
            binds,
        }
    }

    fn update_query(&self) -> (q: Query) {
        let mut binds: Vec<BindValue> = Vec::new();
        binds.push(BindValue::Text(self.name.clone()));
        binds.push(BindValue::Int(self.id_dummy));
        binds.push(BindValue::Int(self.id_sub_dummy));
        proof {
            assert(binds_model(binds@) =~= self.spec_update_query().1);
        }
        Query {
            sql: String::from_str("UPDATE sub_dummy SET name = ?, id_dummy = ? WHERE id_sub_dummy = ?"),
            binds,
        }
    }

    fn delete_query(id: i64) -> (q: Query) {
        let mut binds: Vec<BindValue> = Vec::new();
        binds.push(BindValue::Int(id));
        proof {
            assert(binds_model(binds@) =~= Self::spec_delete_query(id as int).1);
        }
        Query { sql: String::from_str("DELETE FROM sub_dummy WHERE id_sub_dummy = ?"), binds }
    }

    fn fetch_one_query(id: i64) -> (q: Query) {
        let mut binds: Vec<BindValue> = Vec::new();
        binds.push(BindValue::Int(id));
        proof {
            assert(binds_model(binds@) =~= Self::spec_fetch_one_query(id as int).1);
        }
        Query { sql: String::from_str("SELECT * FROM sub_dummy WHERE id_sub_dummy = ?"), binds }
    }

    fn count_query() -> (q: Query) {
        Query { sql: String::from_str("SELECT count(id_sub_dummy) FROM sub_dummy"), binds: Vec::new() }
    }
}

impl DatabaseFetchAll for SubDummy {
    open spec fn spec_fields() -> FieldMap {
        FieldMap {
            table: "sub_dummy"@,
            parent: "id_dummy"@,
            text: seq!["name"@],
            numeric: seq!["id_sub_dummy"@],
            float: Seq::empty(),
            order: seq!["id_sub_dummy"@, "name"@],
        }
    }

    fn field_parent() -> (r: &'static str) {
        "id_dummy"
    }

    fn fields_text() -> (r: Vec<&'static str>) {
        let mut v: Vec<&'static str> = Vec::new();
        v.push("name");
        proof {
            assert(v.deep_view() =~= seq!["name"@]);
        }
        v
    }

    fn fields_numeric() -> (r: Vec<&'static str>) {
        let mut v: Vec<&'static str> = Vec::new();
        v.push("id_sub_dummy");
        proof {
            assert(v.deep_view() =~= seq!["id_sub_dummy"@]);
        }
        v
    }

    fn fields_float() -> (r: Vec<&'static str>) {
        let v: Vec<&'static str> = Vec::new();
        proof {
            assert(v.deep_view() =~= Seq::<Seq<char>>::empty());
        }
        v
    }

    fn fields_order() -> (r: Vec<&'static str>) {
        let mut v: Vec<&'static str> = Vec::new();
        v.push("id_sub_dummy");
        v.push("name");
        proof {
            assert(v.deep_view() =~= seq!["id_sub_dummy"@, "name"@]);
        }
        v
    }

    fn table() -> (r: &'static str) {
        "sub_dummy"
    }
}

impl MatchParent for SubDummy {
    type Parent = Dummy;

    open spec fn spec_fetch_parent_query(parent_id: int, id: int) -> (Seq<char>, Seq<BindModel>) {
        (
            "SELECT b.* FROM sub_dummy a INNER JOIN dummy b ON a.id_dummy = b.id_dummy WHERE a.id_dummy = ? AND a.id_sub_dummy = ?"@,
            seq![BindModel::Int(parent_id), BindModel::Int(id)],
        )
    }

    open spec fn spec_parent_id(&self) -> int {
        self.id_dummy as int
    }

    fn fetch_parent_query(parent_id: i64, id: i64) -> (q: Query) {
        let mut binds: Vec<BindValue> = Vec::new();
        binds.push(BindValue::Int(parent_id));
        binds.push(BindValue::Int(id));
        proof {
            assert(binds_model(binds@) =~= Self::spec_fetch_parent_query(
                parent_id as int,
                id as int,
            ).1);
        }
        Query {
            sql: String::from_str(
                "SELECT b.* FROM sub_dummy a INNER JOIN dummy b ON a.id_dummy = b.id_dummy WHERE a.id_dummy = ? AND a.id_sub_dummy = ?",
            ),
            binds,
        }
    }

    fn get_parent_id(&mut self) -> (r: i64) {
        self.id_dummy
    }
}

impl Check for SubDummy {
    open spec fn spec_check_create(&self) -> bool {
        sub_dummy_valid(self.is_valid)
    }

    open spec fn spec_check_update(&self, previous: &Self) -> bool {
        sub_dummy_valid(self.is_valid)
    }

    open spec fn spec_check_delete(&self) -> bool {
        sub_dummy_valid(self.is_valid)
    }

    fn check_create(&mut self) -> (r: Result<(), Vec<&'static str>>) {
        match self.is_valid {
            Some(true) | None => Ok(()),
            _ => Err(Vec::new()),
        }
    }

    fn check_update(&mut self, previous: Self) -> (r: Result<(), Vec<&'static str>>) {
        match self.is_valid {
            Some(true) | None => Ok(()),
            _ => Err(Vec::new()),
        }
    }

    fn check_delete(&self) -> (r: Result<(), Vec<&'static str>>) {
        match self.is_valid {
            Some(true) | None => Ok(()),
            _ => Err(Vec::new()),
        }
    }
}

} // verus!
