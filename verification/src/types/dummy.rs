//! A top-level entity with an integer key, a searchable name, and a
//! validation flag that the hooks read.

use vstd::prelude::*;
use vstd::string::*;

use crate::prelude::{
    BindModel, BindValue, Check, Database, DatabaseFetchAll, FieldMap, Query, binds_model,
};

verus! {

/// A top-level record: its key, its name, and an optional validity
/// flag.  A record is acceptable to the validation hooks unless the
/// flag says `false`.
#[derive(Debug, PartialEq)]
pub struct Dummy {
    pub id_dummy: i64,
    pub name: String,
    pub is_valid: Option<bool>,
}

/// Whether the validity flag accepts the record: absent or `true`.
pub open spec fn dummy_valid(is_valid: Option<bool>) -> bool {
    match is_valid {
        Some(b) => b,
        None => true,
    }
}

impl Database for Dummy {
    open spec fn spec_insert_query(&self) -> (Seq<char>, Seq<BindModel>) {
        (
            "INSERT INTO dummy VALUES (?, ?) RETURNING id_dummy"@,
            seq![BindModel::Int(self.id_dummy as int), BindModel::Text(self.name@)],
        )
    }

    open spec fn spec_update_query(&self) -> (Seq<char>, Seq<BindModel>) {
        (
            "UPDATE dummy SET name = ? WHERE id_dummy = ?"@,
            seq![BindModel::Text(self.name@), BindModel::Int(self.id_dummy as int)],
        )
    }

    open spec fn spec_delete_query(id: int) -> (Seq<char>, Seq<BindModel>) {
        ("DELETE FROM dummy WHERE id_dummy = ?"@, seq![BindModel::Int(id)])
    }

    open spec fn spec_fetch_one_query(id: int) -> (Seq<char>, Seq<BindModel>) {
        ("SELECT * FROM dummy WHERE id_dummy = ?"@, seq![BindModel::Int(id)])
    }

    open spec fn spec_count_query() -> Seq<char> {
        "SELECT count(id_dummy) FROM dummy"@
    }

    fn insert_query(&self) -> (q: Query) {
        let mut binds: Vec<BindValue> = Vec::new();
        binds.push(BindValue::Int(self.id_dummy));
        binds.push(BindValue::Text(self.name.clone()));
        proof {
            assert(binds_model(binds@) =~= self.spec_insert_query().1);
        }
        Query { sql: String::from_str("INSERT INTO dummy VALUES (?, ?) RETURNING id_dummy"), binds }
    }

    fn update_query(&self) -> (q: Query) {
        let mut binds: Vec<BindValue> = Vec::new();
        binds.push(BindValue::Text(self.name.clone()));
        binds.push(BindValue::Int(self.id_dummy));
        proof {
            assert(binds_model(binds@) =~= self.spec_update_query().1);
        }
        Query { sql: String::from_str("UPDATE dummy SET name = ? WHERE id_dummy = ?"), binds }
    }

    fn delete_query(id: i64) -> (q: Query) {
        let mut binds: Vec<BindValue> = Vec::new();
        binds.push(BindValue::Int(id));
        proof {
            assert(binds_model(binds@) =~= Self::spec_delete_query(id as int).1);
        }
        Query { sql: String::from_str("DELETE FROM dummy WHERE id_dummy = ?"), binds }
    }

    fn fetch_one_query(id: i64) -> (q: Query) {
        let mut binds: Vec<BindValue> = Vec::new();
        binds.push(BindValue::Int(id));
        proof {
            assert(binds_model(binds@) =~= Self::spec_fetch_one_query(id as int).1);
        }
        Query { sql: String::from_str("SELECT * FROM dummy WHERE id_dummy = ?"), binds }
    }

    fn count_query() -> (q: Query) {
        Query { sql: String::from_str("SELECT count(id_dummy) FROM dummy"), binds: Vec::new() }
    }
}

impl DatabaseFetchAll for Dummy {
    open spec fn spec_fields() -> FieldMap {
        FieldMap {
            table: "dummy"@,
            parent: Seq::empty(),
            text: seq!["name"@],
            numeric: seq!["id_dummy"@],
            float: Seq::empty(),
            order: seq!["id_dummy"@, "name"@],
        }
    }

    fn field_parent() -> (r: &'static str) {
        proof {
            reveal_strlit("");
            assert(""@ =~= Seq::<char>::empty());
        }
        ""
    }

    fn fields_text() -> (r: Vec<&'static str>) {
        let mut v: Vec<&'static str> = Vec::new();
        v.push("name");
        proof {
            assert(v.deep_view() =~= seq!["name"@]);
        }
        v
    }

    fn fields_numeric() -> (r: Vec<&'static str>) {
        let mut v: Vec<&'static str> = Vec::new();
        v.push("id_dummy");
        proof {
            assert(v.deep_view() =~= seq!["id_dummy"@]);
        }
        v
    }

    fn fields_float() -> (r: Vec<&'static str>) {
        let v: Vec<&'static str> = Vec::new();
        proof {
            assert(v.deep_view() =~= Seq::<Seq<char>>::empty());
        }
        v
    }

    fn fields_order() -> (r: Vec<&'static str>) {
        let mut v: Vec<&'static str> = Vec::new();
        v.push("id_dummy");
        v.push("name");
        proof {
            assert(v.deep_view() =~= seq!["id_dummy"@, "name"@]);
        }
        v
    }

    fn table() -> (r: &'static str) {
        "dummy"
    }
}

impl Check for Dummy {
    open spec fn spec_check_create(&self) -> bool {
        dummy_valid(self.is_valid)
    }

    open spec fn spec_check_update(&self, previous: &Self) -> bool {
        dummy_valid(self.is_valid)
    }

    open spec fn spec_check_delete(&self) -> bool {
        dummy_valid(self.is_valid)
    }

    fn check_create(&mut self) -> (r: Result<(), Vec<&'static str>>) {
        match self.is_valid {
            Some(true) | None => Ok(()),
            _ => Err(Vec::new()),
        }
    }

    fn check_update(&mut self, previous: Self) -> (r: Result<(), Vec<&'static str>>) {
        match self.is_valid {
            Some(true) | None => Ok(()),
            _ => Err(Vec::new()),
        }
    }

    fn check_delete(&self) -> (r: Result<(), Vec<&'static str>>) {
        match self.is_valid {
            Some(true) | None => Ok(()),
            _ => Err(Vec::new()),
        }
    }
}

} // verus!
