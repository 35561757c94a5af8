//! The search compiler and the per-entity contracts.
//!
//! A search string is split into words; every word is read as every field
//! class the entity declares (floating-point, integer, text), producing a
//! token stream in a fixed evaluation order: float tokens first, then
//! integer tokens, then text tokens, each sub-stream in input word order.
//! The tokens expand across the declared field names into a parameterized
//! `WHERE` clause and an ordered bind list.

use vstd::prelude::*;
use vstd::string::*;

use crate::numbers::{int_word_val, is_float_word, is_int_word, parse_i64, is_float_str};
use crate::text::{spec_join, spec_words, join_strings, split_words};

verus! {

/// One token compiled from a search word: the text form carries the
/// wildcard pattern `%word%`, the integer form the parsed value, and the
/// floating-point form the original word, whose digits fix the bound
/// value.
#[derive(Debug, PartialEq)]
pub enum QueryToken {
    Text(String),
    Numeric(i64),
    Float(String),
}

/// The mathematical shadow of a [`QueryToken`].
pub enum TokenModel {
    Text(Seq<char>),
    Numeric(int),
    Float(Seq<char>),
}

/// The model of one token.
pub open spec fn token_model(t: QueryToken) -> TokenModel {
    match t {
        QueryToken::Text(s) => TokenModel::Text(s@),
        QueryToken::Numeric(v) => TokenModel::Numeric(v as int),
        QueryToken::Float(w) => TokenModel::Float(w@),
    }
}

/// The model of a token list.
pub open spec fn tokens_model(ts: Seq<QueryToken>) -> Seq<TokenModel> {
    ts.map_values(|t: QueryToken| token_model(t))
}

impl Clone for QueryToken {
    /// Clones a token; the copy has the same model.
    fn clone(&self) -> (r: Self)
        ensures
            token_model(r) == token_model(*self),
    {
        match self {
            QueryToken::Text(s) => QueryToken::Text(s.clone()),
            QueryToken::Numeric(v) => QueryToken::Numeric(*v),
            QueryToken::Float(w) => QueryToken::Float(w.clone()),
        }
    }
}

/// The searchable-field declaration of an entity, as mathematics: which
/// table it lives in, which field names each class of token may match,
/// which names a listing may be ordered by, and — for a nested entity —
/// the column holding the parent key (empty otherwise).
pub struct FieldMap {
    pub table: Seq<char>,
    pub parent: Seq<char>,
    pub text: Seq<Seq<char>>,
    pub numeric: Seq<Seq<char>>,
    pub float: Seq<Seq<char>>,
    pub order: Seq<Seq<char>>,
}

/// The wildcard pattern a text token wraps around a word.
pub open spec fn wild(w: Seq<char>) -> Seq<char> {
    "%"@ + w + "%"@
}

/// The float tokens of a word list: one per word with floating-point
/// syntax, in word order.
pub open spec fn spec_float_stream(ws: Seq<Seq<char>>) -> Seq<TokenModel>
    decreases ws.len(),
{
    if ws.len() == 0 {
        Seq::empty()
    } else {
        spec_float_stream(ws.drop_last()) + (if is_float_word(ws.last()) {
            seq![TokenModel::Float(ws.last())]
        } else {
            Seq::empty()
        })
    }
}

/// The integer tokens of a word list: one per word that parses as a
/// signed 64-bit integer, in word order.
pub open spec fn spec_numeric_stream(ws: Seq<Seq<char>>) -> Seq<TokenModel>
    decreases ws.len(),
{
    if ws.len() == 0 {
        Seq::empty()
    } else {
        spec_numeric_stream(ws.drop_last()) + (if is_int_word(ws.last()) {
            seq![TokenModel::Numeric(int_word_val(ws.last()))]
        } else {
            Seq::empty()
        })
    }
}

/// The text tokens of a word list: every word, wildcard-wrapped, in word
/// order.
pub open spec fn spec_text_stream(ws: Seq<Seq<char>>) -> Seq<TokenModel>
    decreases ws.len(),
{
    if ws.len() == 0 {
        Seq::empty()
    } else {
        spec_text_stream(ws.drop_last()).push(TokenModel::Text(wild(ws.last())))
    }
}

/// The compiled token stream of a search string: the float stream, then
/// the integer stream, then the text stream, each present only when the
/// entity declares a field of that class.
pub open spec fn spec_tokens_of(q: Seq<char>, fm: FieldMap) -> Seq<TokenModel> {
    (if fm.float.len() > 0 {
        spec_float_stream(spec_words(q))
    } else {
        Seq::empty()
    }) + (if fm.numeric.len() > 0 {
        spec_numeric_stream(spec_words(q))
    } else {
        Seq::empty()
    }) + (if fm.text.len() > 0 {
        spec_text_stream(spec_words(q))
    } else {
        Seq::empty()
    })
}

proof fn lemma_tokens_model_push(ts: Seq<QueryToken>, t: QueryToken)
    ensures
        tokens_model(ts.push(t)) == tokens_model(ts).push(token_model(t)),
{
    assert(tokens_model(ts.push(t)) =~= tokens_model(ts).push(token_model(t)));
}

proof fn lemma_tokens_model_concat(a: Seq<QueryToken>, b: Seq<QueryToken>)
    ensures
        tokens_model(a + b) == tokens_model(a) + tokens_model(b),
{
    assert(tokens_model(a + b) =~= tokens_model(a) + tokens_model(b));
}

/// The float tokens of a word list, as values.
fn float_tokens(words: &Vec<String>) -> (r: Vec<QueryToken>)
    ensures
        tokens_model(r@) == spec_float_stream(words.deep_view()),
{
    let ghost ws = words.deep_view();
    let mut out: Vec<QueryToken> = Vec::new();
    let mut i: usize = 0;
    proof {
        assert(ws.take(0) =~= Seq::<Seq<char>>::empty());
        assert(tokens_model(out@) =~= Seq::<TokenModel>::empty());
    }
    while i < words.len()
        invariant
            i <= words.len(),
            ws == words.deep_view(),
            tokens_model(out@) == spec_float_stream(ws.take(i as int)),
        decreases words.len() - i,
    {
        let ghost prev = out@;
        proof {
            assert(ws.take(i + 1).drop_last() =~= ws.take(i as int));
            assert(ws.take(i + 1).last() == ws[i as int]);
            assert(ws[i as int] == words@[i as int]@);
        }
        if is_float_str(words[i].as_str()) {
            let w = words[i].clone();
            out.push(QueryToken::Float(w));
            proof {
                lemma_tokens_model_push(prev, QueryToken::Float(w));
                assert(tokens_model(out@) =~= spec_float_stream(ws.take(i + 1)));
            }
        } else {
            proof {
                assert(tokens_model(out@) =~= spec_float_stream(ws.take(i + 1)));
            }
        }
        i = i + 1;
    }
    proof {
        assert(ws.take(words.len() as int) =~= ws);
    }
    out
}

/// The integer tokens of a word list, as values.
fn numeric_tokens(words: &Vec<String>) -> (r: Vec<QueryToken>)
    ensures
        tokens_model(r@) == spec_numeric_stream(words.deep_view()),
{
    let ghost ws = words.deep_view();
    let mut out: Vec<QueryToken> = Vec::new();
    let mut i: usize = 0;
    proof {
        assert(ws.take(0) =~= Seq::<Seq<char>>::empty());
        assert(tokens_model(out@) =~= Seq::<TokenModel>::empty());
    }
    while i < words.len()
        invariant
            i <= words.len(),
            ws == words.deep_view(),
            tokens_model(out@) == spec_numeric_stream(ws.take(i as int)),
        decreases words.len() - i,
    {
        let ghost prev = out@;
        proof {
            assert(ws.take(i + 1).drop_last() =~= ws.take(i as int));
            assert(ws.take(i + 1).last() == ws[i as int]);
            assert(ws[i as int] == words@[i as int]@);
        }
        match parse_i64(words[i].as_str()) {
            Some(v) => {
                out.push(QueryToken::Numeric(v));
                proof {
                    lemma_tokens_model_push(prev, QueryToken::Numeric(v));
                    assert(tokens_model(out@) =~= spec_numeric_stream(ws.take(i + 1)));
                }
            },
            None => {
                proof {
                    assert(tokens_model(out@) =~= spec_numeric_stream(ws.take(i + 1)));
                }
            },
        }
        i = i + 1;
    }
    proof {
        assert(ws.take(words.len() as int) =~= ws);
    }
    out
}

/// The text tokens of a word list, as values.
fn text_tokens(words: &Vec<String>) -> (r: Vec<QueryToken>)
    ensures
        tokens_model(r@) == spec_text_stream(words.deep_view()),
{
    let ghost ws = words.deep_view();
    let mut out: Vec<QueryToken> = Vec::new();
    let mut i: usize = 0;
    proof {
        assert(ws.take(0) =~= Seq::<Seq<char>>::empty());
        assert(tokens_model(out@) =~= Seq::<TokenModel>::empty());
    }
    while i < words.len()
        invariant
            i <= words.len(),
            ws == words.deep_view(),
            tokens_model(out@) == spec_text_stream(ws.take(i as int)),
        decreases words.len() - i,
    {
        let ghost prev = out@;
        proof {
            assert(ws.take(i + 1).drop_last() =~= ws.take(i as int));
            assert(ws.take(i + 1).last() == ws[i as int]);
            assert(ws[i as int] == words@[i as int]@);
        }
        let mut p = String::from_str("%");
        p.append(words[i].as_str());
        p.append("%");
        out.push(QueryToken::Text(p));
        proof {
            lemma_tokens_model_push(prev, QueryToken::Text(p));
            assert(tokens_model(out@) =~= spec_text_stream(ws.take(i + 1)));
        }
        i = i + 1;
    }
    proof {
        assert(ws.take(words.len() as int) =~= ws);
    }
    out
}

/// One value bound to a `?` placeholder, in placeholder order.  A
/// floating-point bind carries the word it was compiled from; the digits
/// of the word fix the value the storage layer binds.
#[derive(Debug, PartialEq)]
pub enum BindValue {
    Int(i64),
    Text(String),
    FloatWord(String),
}

/// The mathematical shadow of a [`BindValue`].
pub enum BindModel {
    Int(int),
    Text(Seq<char>),
    FloatWord(Seq<char>),
}

/// The model of one bind value.
pub open spec fn bind_model(b: BindValue) -> BindModel {
    match b {
        BindValue::Int(v) => BindModel::Int(v as int),
        BindValue::Text(s) => BindModel::Text(s@),
        BindValue::FloatWord(w) => BindModel::FloatWord(w@),
    }
}

/// The model of a bind list.
pub open spec fn binds_model(bs: Seq<BindValue>) -> Seq<BindModel> {
    bs.map_values(|b: BindValue| bind_model(b))
}

/// The bind value a compiled token contributes.
pub open spec fn bind_of_token(t: TokenModel) -> BindModel {
    match t {
        TokenModel::Text(s) => BindModel::Text(s),
        TokenModel::Numeric(v) => BindModel::Int(v),
        TokenModel::Float(w) => BindModel::FloatWord(w),
    }
}

/// A compiled statement: its text and its bind values, in placeholder
/// order.
#[derive(Debug, PartialEq)]
pub struct Query {
    pub sql: String,
    pub binds: Vec<BindValue>,
}

/// The field names a token expands across, by its class.
pub open spec fn fields_for(t: TokenModel, fm: FieldMap) -> Seq<Seq<char>> {
    match t {
        TokenModel::Text(_) => fm.text,
        TokenModel::Numeric(_) => fm.numeric,
        TokenModel::Float(_) => fm.float,
    }
}

/// The comparison a token makes against one field: pattern matching for
/// text, equality for numbers.
pub open spec fn spec_piece(field: Seq<char>, t: TokenModel) -> Seq<char> {
    match t {
        TokenModel::Text(_) => field + " LIKE ?"@,
        _ => field + " = ?"@,
    }
}

/// One token expanded across a field list, in field order.
pub open spec fn expand_token(t: TokenModel, fields: Seq<Seq<char>>) -> Seq<Seq<char>>
    decreases fields.len(),
{
    if fields.len() == 0 {
        Seq::empty()
    } else {
        expand_token(t, fields.drop_last()).push(spec_piece(fields.last(), t))
    }
}

/// All tokens expanded across their field classes, token order first,
/// field order within each token.
pub open spec fn expand_tokens(ts: Seq<TokenModel>, fm: FieldMap) -> Seq<Seq<char>>
    decreases ts.len(),
{
    if ts.len() == 0 {
        Seq::empty()
    } else {
        expand_tokens(ts.drop_last(), fm) + expand_token(ts.last(), fields_for(ts.last(), fm))
    }
}

/// The compiled `WHERE` clause: the parent-equality piece when the
/// entity is nested, and the token pieces joined with `OR`, the two
/// joined with `AND`; nothing when there is nothing to filter by.
pub open spec fn spec_query_where(ts: Seq<TokenModel>, fm: FieldMap) -> Option<Seq<char>> {
    let pieces: Seq<Seq<char>> = (if fm.parent.len() > 0 {
        seq![fm.parent + " = ?"@]
    } else {
        Seq::empty()
    }) + (if ts.len() > 0 {
        seq!["("@ + spec_join(expand_tokens(ts, fm), " OR "@) + ")"@]
    } else {
        Seq::empty()
    });
    if pieces.len() > 0 {
        Some("WHERE "@ + spec_join(pieces, " AND "@))
    } else {
        None
    }
}

/// The bind values of a token list, one per token, in token order.
pub open spec fn spec_token_binds(ts: Seq<TokenModel>) -> Seq<BindModel> {
    ts.map_values(|t: TokenModel| bind_of_token(t))
}

/// Each token repeated once per field of its class, in token order: the
/// bind expansion matching the placeholders of the compiled clause.
pub open spec fn spec_fill(ts: Seq<TokenModel>, fm: FieldMap) -> Seq<TokenModel>
    decreases ts.len(),
{
    if ts.len() == 0 {
        Seq::empty()
    } else {
        spec_fill(ts.drop_last(), fm) + Seq::new(fields_for(ts.last(), fm).len(), |_i: int| ts.last())
    }
}

proof fn lemma_expand_token_index(t: TokenModel, fields: Seq<Seq<char>>, k: int)
    requires
        0 <= k < fields.len(),
    ensures
        expand_token(t, fields).len() == fields.len(),
        expand_token(t, fields)[k] == spec_piece(fields[k], t),
    decreases fields.len(),
{
    lemma_expand_token_len(t, fields);
    if k < fields.len() - 1 {
        lemma_expand_token_index(t, fields.drop_last(), k);
    }
}

proof fn lemma_expand_token_len(t: TokenModel, fields: Seq<Seq<char>>)
    ensures
        expand_token(t, fields).len() == fields.len(),
    decreases fields.len(),
{
    if fields.len() > 0 {
        lemma_expand_token_len(t, fields.drop_last());
    }
}

/// The bind expansion matches the compiled clause piece for piece:
/// the filled token list holds exactly one token per comparison piece
/// of the clause.
pub proof fn lemma_fill_matches_pieces(ts: Seq<TokenModel>, fm: FieldMap)
    ensures
        spec_fill(ts, fm).len() == expand_tokens(ts, fm).len(),
    decreases ts.len(),
{
    if ts.len() > 0 {
        lemma_fill_matches_pieces(ts.drop_last(), fm);
        lemma_expand_token_len(ts.last(), fields_for(ts.last(), fm));
    }
}

/// The bind order is the placeholder order: piece `i` of the compiled
/// clause compares some field of the right class against exactly the
/// token that bind `i` carries.
pub proof fn lemma_fill_aligns(ts: Seq<TokenModel>, fm: FieldMap, i: int)
    requires
        0 <= i < spec_fill(ts, fm).len(),
    ensures
        expand_tokens(ts, fm).len() == spec_fill(ts, fm).len(),
        exists|k: int|
            0 <= k < fields_for(spec_fill(ts, fm)[i], fm).len() && expand_tokens(ts, fm)[i]
                == spec_piece(fields_for(spec_fill(ts, fm)[i], fm)[k], spec_fill(ts, fm)[i]),
    decreases ts.len(),
{
    lemma_fill_matches_pieces(ts, fm);
    let last = ts.last();
    let fields = fields_for(last, fm);
    let pre = spec_fill(ts.drop_last(), fm);
    lemma_fill_matches_pieces(ts.drop_last(), fm);
    if i < pre.len() {
        lemma_fill_aligns(ts.drop_last(), fm, i);
        assert(spec_fill(ts, fm)[i] == pre[i]);
        assert(expand_tokens(ts, fm)[i] == expand_tokens(ts.drop_last(), fm)[i]);
    } else {
        let k = i - pre.len();
        assert(spec_fill(ts, fm)[i] == last);
        lemma_expand_token_index(last, fields, k);
        assert(expand_tokens(ts, fm)[i] == expand_token(last, fields)[k]);
        assert(expand_token(last, fields)[k] == spec_piece(fields[k], last));
    }
}

/// The characters of an optional string, empty when absent.
pub open spec fn opt_str(o: Option<String>) -> Seq<char> {
    match o {
        Some(s) => s@,
        None => Seq::empty(),
    }
}

/// The value of an optional integer, zero when absent.
pub open spec fn opt_i64(o: Option<i64>) -> int {
    match o {
        Some(v) => v as int,
        None => 0,
    }
}

fn piece_for(field: &str, token: &QueryToken) -> (r: String)
    ensures
        r@ == spec_piece(field@, token_model(*token)),
{
    let mut s = String::from_str(field);
    match token {
        QueryToken::Text(_) => s.append(" LIKE ?"),
        _ => s.append(" = ?"),
    }
    s
}

/// The statement text compiled for a full listing.
pub open spec fn spec_fetch_all_sql(search: Seq<char>, order: Seq<char>, fm: FieldMap) -> Seq<char> {
    let ts = spec_tokens_of(search, fm);
    let w = match spec_query_where(ts, fm) {
        Some(s) => s,
        None => Seq::<char>::empty(),
    };
    let o = if fm.order.contains(order) {
        "ORDER BY "@ + order
    } else {
        Seq::<char>::empty()
    };
    "SELECT * FROM "@ + fm.table + " "@ + w + " "@ + o + " limit ?, ?"@
}

/// The bind values compiled for a full listing: the parent id when the
/// entity is nested, the expanded token binds, then the window.
pub open spec fn spec_fetch_all_binds(
    search: Seq<char>,
    parent_id: int,
    offset: int,
    limit: int,
    fm: FieldMap,
) -> Seq<BindModel> {
    (if fm.parent.len() > 0 {
        seq![BindModel::Int(parent_id)]
    } else {
        Seq::<BindModel>::empty()
    }) + spec_token_binds(spec_fill(spec_tokens_of(search, fm), fm)) + seq![
        BindModel::Int(offset),
        BindModel::Int(limit),
    ]
}

/// Converts filled tokens to their bind values, in order.
pub fn binds_of_tokens(tokens: Vec<QueryToken>) -> (r: Vec<BindValue>)
    ensures
        binds_model(r@) == spec_token_binds(tokens_model(tokens@)),
{
    let ghost tm = tokens_model(tokens@);
    let mut out: Vec<BindValue> = Vec::new();
    let mut i: usize = 0;
    proof {
        assert(binds_model(out@) =~= spec_token_binds(tm.take(0)));
    }
    while i < tokens.len()
        invariant
            i <= tokens.len(),
            tm == tokens_model(tokens@),
            binds_model(out@) == spec_token_binds(tm.take(i as int)),
        decreases tokens.len() - i,
    {
        let ghost prev = out@;
        let t = tokens[i].clone();
        let b = match t {
            QueryToken::Text(s) => BindValue::Text(s),
            QueryToken::Numeric(v) => BindValue::Int(v),
            QueryToken::Float(w) => BindValue::FloatWord(w),
        };
        proof {
            assert(bind_model(b) == bind_of_token(tm[i as int]));
        }
        out.push(b);
        proof {
            assert(binds_model(out@) =~= binds_model(prev).push(bind_model(b)));
            assert(spec_token_binds(tm.take(i + 1)) =~= spec_token_binds(tm.take(i as int)).push(
                bind_of_token(tm[i as int]),
            ));
        }
        i = i + 1;
    }
    proof {
        assert(tm.take(tokens.len() as int) =~= tm);
    }
    out
}

/// The persistence contract of an entity: the five statements the
/// storage layer runs for it.  Each method compiles the statement text
/// and its bind values; executing them is the outer program's work.
pub trait Database: Sized {
    /// The insert statement of `self`, as mathematics.
    spec fn spec_insert_query(&self) -> (Seq<char>, Seq<BindModel>);

    /// The update statement of `self`, as mathematics.
    spec fn spec_update_query(&self) -> (Seq<char>, Seq<BindModel>);

    /// The delete statement for an id, as mathematics.
    spec fn spec_delete_query(id: int) -> (Seq<char>, Seq<BindModel>);

    /// The single-row fetch statement for an id, as mathematics.
    spec fn spec_fetch_one_query(id: int) -> (Seq<char>, Seq<BindModel>);

    /// The unfiltered row-count statement, as mathematics.
    spec fn spec_count_query() -> Seq<char>;

    /// The statement that inserts `self` and returns the new id.
    fn insert_query(&self) -> (q: Query)
        ensures
            q.sql@ == self.spec_insert_query().0,
            binds_model(q.binds@) == self.spec_insert_query().1,
    ;

    /// The statement that updates the row with `self`'s id.
    fn update_query(&self) -> (q: Query)
        ensures
            q.sql@ == self.spec_update_query().0,
            binds_model(q.binds@) == self.spec_update_query().1,
    ;

    /// The statement that deletes the row with the given id.
    fn delete_query(id: i64) -> (q: Query)
        ensures
            q.sql@ == Self::spec_delete_query(id as int).0,
            binds_model(q.binds@) == Self::spec_delete_query(id as int).1,
    ;

    /// The statement that fetches the row with the given id.
    fn fetch_one_query(id: i64) -> (q: Query)
        ensures
            q.sql@ == Self::spec_fetch_one_query(id as int).0,
            binds_model(q.binds@) == Self::spec_fetch_one_query(id as int).1,
    ;

    /// The statement that counts all rows, with no bind values.
    fn count_query() -> (q: Query)
        ensures
            q.sql@ == Self::spec_count_query(),
            q.binds@.len() == 0,
    ;
}

/// The ownership contract of a nested entity: the single join statement
/// that confirms a child row belongs to a claimed parent, and the value
/// of the child's parent key.
pub trait MatchParent: Sized {
    /// The parent entity's type.
    type Parent;

    /// The ownership join statement, as mathematics.
    spec fn spec_fetch_parent_query(parent_id: int, id: int) -> (Seq<char>, Seq<BindModel>);

    /// The child's parent key.
    spec fn spec_parent_id(&self) -> int;

    /// The statement that returns the parent row exactly when the
    /// parent with `parent_id` owns the child with `id`.
    fn fetch_parent_query(parent_id: i64, id: i64) -> (q: Query)
        ensures
            q.sql@ == Self::spec_fetch_parent_query(parent_id as int, id as int).0,
            binds_model(q.binds@) == Self::spec_fetch_parent_query(parent_id as int, id as int).1,
    ;

    /// Reads the child's parent key.
    fn get_parent_id(&mut self) -> (r: i64)
        ensures
            *final(self) == *old(self),
            r as int == old(self).spec_parent_id(),
    ;
}

/// The validation contract of an entity: three pure hooks, run before
/// the matching mutation.  A hook that rejects stops the operation; the
/// candidate itself is never changed by a hook.
pub trait Check: Sized {
    /// Whether the candidate may be created.
    spec fn spec_check_create(&self) -> bool;

    /// Whether the candidate may replace the previously stored value.
    spec fn spec_check_update(&self, previous: &Self) -> bool;

    /// Whether the stored value may be deleted.
    spec fn spec_check_delete(&self) -> bool;

    /// Checks the candidate before a create.
    fn check_create(&mut self) -> (r: Result<(), Vec<&'static str>>)
        ensures
            *final(self) == *old(self),
            (r is Ok) == old(self).spec_check_create(),
    ;

    /// Checks the candidate against the stored value before an update.
    fn check_update(&mut self, previous: Self) -> (r: Result<(), Vec<&'static str>>)
        ensures
            *final(self) == *old(self),
            (r is Ok) == old(self).spec_check_update(&previous),
    ;

    /// Checks the stored value before a delete.
    fn check_delete(&self) -> (r: Result<(), Vec<&'static str>>)
        ensures
            (r is Ok) == self.spec_check_delete(),
    ;
}

/// The listing contract of an entity: its table, its searchable field
/// classes, its orderable fields, and — for a nested entity — the name
/// of the column holding the parent key.  The provided methods compile a
/// search into tokens, a `WHERE` clause, an `ORDER BY` clause and a full
/// listing statement.
pub trait DatabaseFetchAll: Sized {
    /// The entity's searchable-field declaration.
    spec fn spec_fields() -> FieldMap;

    fn field_parent() -> (r: &'static str)
        ensures
            r@ == Self::spec_fields().parent,
    ;

    fn fields_text() -> (r: Vec<&'static str>)
        ensures
            r.deep_view() == Self::spec_fields().text,
    ;

    fn fields_numeric() -> (r: Vec<&'static str>)
        ensures
            r.deep_view() == Self::spec_fields().numeric,
    ;

    fn fields_float() -> (r: Vec<&'static str>)
        ensures
            r.deep_view() == Self::spec_fields().float,
    ;

    fn fields_order() -> (r: Vec<&'static str>)
        ensures
            r.deep_view() == Self::spec_fields().order,
    ;

    fn table() -> (r: &'static str)
        ensures
            r@ == Self::spec_fields().table,
    ;

    /// The field names `token` expands across.
    fn get_field_array(token: &QueryToken) -> (r: Vec<&'static str>)
        ensures
            r.deep_view() == fields_for(token_model(*token), Self::spec_fields()),
    {
        match token {
            QueryToken::Text(_) => Self::fields_text(),
            QueryToken::Numeric(_) => Self::fields_numeric(),
            QueryToken::Float(_) => Self::fields_float(),
        }
    }

    /// Compiles a search string into its token stream: float tokens,
    /// then integer tokens, then text tokens, each class only when the
    /// entity declares a field for it, each sub-stream in word order.
    fn tokens(query: String) -> (r: Vec<QueryToken>)
        ensures
            tokens_model(r@) == spec_tokens_of(query@, Self::spec_fields()),
    {
        let words = split_words(query.as_str());
        let mut out: Vec<QueryToken> = Vec::new();
        if Self::fields_float().len() > 0 {
            let ghost a = out@;
            let mut f = float_tokens(&words);
            let ghost b = f@;
            out.append(&mut f);
            proof {
                lemma_tokens_model_concat(a, b);
            }
        }
        if Self::fields_numeric().len() > 0 {
            let ghost a = out@;
            let mut f = numeric_tokens(&words);
            let ghost b = f@;
            out.append(&mut f);
            proof {
                lemma_tokens_model_concat(a, b);
            }
        }
        if Self::fields_text().len() > 0 {
            let ghost a = out@;
            let mut f = text_tokens(&words);
            let ghost b = f@;
            out.append(&mut f);
            proof {
                lemma_tokens_model_concat(a, b);
            }
        }
        proof {
            assert(tokens_model(out@) =~= spec_tokens_of(query@, Self::spec_fields()));
        }
        out
    }

    /// Pieces expanded for every token of `tokens`, as strings.
    fn expand_pieces(tokens: &Vec<QueryToken>) -> (r: Vec<String>)
        ensures
            r.deep_view() == expand_tokens(tokens_model(tokens@), Self::spec_fields()),
    {
        let ghost fm = Self::spec_fields();
        let ghost tm = tokens_model(tokens@);
        let mut out: Vec<String> = Vec::new();
        let mut i: usize = 0;
        proof {
            assert(tm.take(0) =~= Seq::<TokenModel>::empty());
            assert(out.deep_view() =~= expand_tokens(tm.take(0), fm));
        }
        while i < tokens.len()
            invariant
                i <= tokens.len(),
                fm == Self::spec_fields(),
                tm == tokens_model(tokens@),
                out.deep_view() == expand_tokens(tm.take(i as int), fm),
            decreases tokens.len() - i,
        {
            let fields = Self::get_field_array(&tokens[i]);
            let ghost fa = fields_for(tm[i as int], fm);
            proof {
                assert(tm[i as int] == token_model(tokens@[i as int]));
                assert(fields.deep_view() == fa);
            }
            let mut j: usize = 0;
            proof {
                assert(fa.take(0) =~= Seq::<Seq<char>>::empty());
                assert(out.deep_view() =~= expand_tokens(tm.take(i as int), fm) + expand_token(
                    tm[i as int],
                    fa.take(0),
                ));
            }
            while j < fields.len()
                invariant
                    j <= fields.len(),
                    i < tokens.len(),
                    fm == Self::spec_fields(),
                    tm == tokens_model(tokens@),
                    fa == fields_for(tm[i as int], fm),
                    fields.deep_view() == fa,
                    tm[i as int] == token_model(tokens@[i as int]),
                    out.deep_view() == expand_tokens(tm.take(i as int), fm) + expand_token(
                        tm[i as int],
                        fa.take(j as int),
                    ),
                decreases fields.len() - j,
            {
                let ghost prev = out.deep_view();
                let p = piece_for(fields[j], &tokens[i]);
                out.push(p);
                proof {
                    assert(fa.take(j + 1).drop_last() =~= fa.take(j as int));
                    assert(fa.take(j + 1).last() == fa[j as int]);
                    assert(fa[j as int] == fields@[j as int]@);
                    assert(out.deep_view() =~= prev.push(p@));
                }
                j = j + 1;
            }
            proof {
                assert(fa.take(fields.len() as int) =~= fa);
                assert(tm.take(i + 1).drop_last() =~= tm.take(i as int));
                assert(tm.take(i + 1).last() == tm[i as int]);
                assert(out.deep_view() =~= expand_tokens(tm.take(i + 1), fm));
            }
            i = i + 1;
        }
        proof {
            assert(tm.take(tokens.len() as int) =~= tm);
        }
        out
    }

    /// Compiles the token stream into a `WHERE` clause, if there is
    /// anything to filter by.
    fn create_query_where(tokens: &Vec<QueryToken>) -> (r: Option<String>)
        ensures
            (r is Some) == (spec_query_where(tokens_model(tokens@), Self::spec_fields()) is Some),
            r is Some ==> r->Some_0@ == spec_query_where(
                tokens_model(tokens@),
                Self::spec_fields(),
            )->Some_0,
    {
        let ghost fm = Self::spec_fields();
        let ghost tm = tokens_model(tokens@);
        let mut pieces: Vec<String> = Vec::new();
        let parent = Self::field_parent();
        if !parent.is_empty() {
            let mut p = String::from_str(parent);
            p.append(" = ?");
            let ghost prev = pieces.deep_view();
            pieces.push(p);
            proof {
                assert(pieces.deep_view() =~= prev.push(p@));
            }
        }
        if tokens.len() > 0 {
            let expanded = Self::expand_pieces(tokens);
            let joined = join_strings(&expanded, " OR ");
            let mut g = String::from_str("(");
            g.append(joined.as_str());
            g.append(")");
            let ghost prev = pieces.deep_view();
            pieces.push(g);
            proof {
                assert(pieces.deep_view() =~= prev.push(g@));
            }
        }
        proof {
            assert(pieces.deep_view() =~= (if fm.parent.len() > 0 {
                seq![fm.parent + " = ?"@]
            } else {
                Seq::<Seq<char>>::empty()
            }) + (if tm.len() > 0 {
                seq!["("@ + spec_join(expand_tokens(tm, fm), " OR "@) + ")"@]
            } else {
                Seq::<Seq<char>>::empty()
            }));
        }
        if pieces.len() > 0 {
            let joined = join_strings(&pieces, " AND ");
            let mut w = String::from_str("WHERE ");
            w.append(joined.as_str());
            Some(w)
        } else {
            None
        }
    }

    /// Expands the token stream into the bind order of the compiled
    /// clause: each token once per field of its class.
    fn fill_query_where(tokens: Vec<QueryToken>) -> (r: Vec<QueryToken>)
        ensures
            tokens_model(r@) == spec_fill(tokens_model(tokens@), Self::spec_fields()),
    {
        let ghost fm = Self::spec_fields();
        let ghost tm = tokens_model(tokens@);
        let mut out: Vec<QueryToken> = Vec::new();
        let mut i: usize = 0;
        proof {
            assert(tm.take(0) =~= Seq::<TokenModel>::empty());
            assert(tokens_model(out@) =~= spec_fill(tm.take(0), fm));
        }
        while i < tokens.len()
            invariant
                i <= tokens.len(),
                fm == Self::spec_fields(),
                tm == tokens_model(tokens@),
                tokens_model(out@) == spec_fill(tm.take(i as int), fm),
            decreases tokens.len() - i,
        {
            let fields = Self::get_field_array(&tokens[i]);
            let ghost fa = fields_for(tm[i as int], fm);
            proof {
                assert(tm[i as int] == token_model(tokens@[i as int]));
                assert(fields.deep_view() == fa);
                assert(fields@.len() == fa.len());
            }
            let k = fields.len();
            let mut j: usize = 0;
            while j < k
                invariant
                    j <= k,
                    i < tokens.len(),
                    fm == Self::spec_fields(),
                    tm == tokens_model(tokens@),
                    fa == fields_for(tm[i as int], fm),
                    k == fa.len(),
                    tm[i as int] == token_model(tokens@[i as int]),
                    tokens_model(out@) == spec_fill(tm.take(i as int), fm) + Seq::new(
                        j as nat,
                        |_n: int| tm[i as int],
                    ),
                decreases k - j,
            {
                let ghost prev = out@;
                let t = tokens[i].clone();
                out.push(t);
                proof {
                    lemma_tokens_model_push(prev, t);
                    assert(Seq::new((j + 1) as nat, |_n: int| tm[i as int]) =~= Seq::new(
                        j as nat,
                        |_n: int| tm[i as int],
                    ).push(tm[i as int]));
                    assert(tokens_model(out@) =~= spec_fill(tm.take(i as int), fm) + Seq::new(
                        (j + 1) as nat,
                        |_n: int| tm[i as int],
                    ));
                }
                j = j + 1;
            }
            proof {
                assert(tm.take(i + 1).drop_last() =~= tm.take(i as int));
                assert(tm.take(i + 1).last() == tm[i as int]);
                assert(tokens_model(out@) =~= spec_fill(tm.take(i + 1), fm));
            }
            i = i + 1;
        }
        proof {
            assert(tm.take(tokens.len() as int) =~= tm);
        }
        out
    }

    /// Compiles an `ORDER BY` clause when the named field is declared
    /// orderable; an unrecognized name is silently ignored.
    fn create_query_order(order: String) -> (r: Option<String>)
        ensures
            (r is Some) == Self::spec_fields().order.contains(order@),
            r is Some ==> r->Some_0@ == "ORDER BY "@ + order@,
    {
        let fields = Self::fields_order();
        let ghost fo = Self::spec_fields().order;
        let mut i: usize = 0;
        while i < fields.len()
            invariant
                i <= fields.len(),
                fields.deep_view() == fo,
                fo == Self::spec_fields().order,
                forall|k: int| 0 <= k < i ==> fo[k] != order@,
            decreases fields.len() - i,
        {
            let f = String::from_str(fields[i]);
            if f == order {
                proof {
                    assert(fo[i as int] == fields@[i as int]@);
                    assert(fo.contains(order@));
                }
                let mut s = String::from_str("ORDER BY ");
                s.append(order.as_str());
                return Some(s);
            }
            proof {
                assert(fo[i as int] == fields@[i as int]@);
            }
            i = i + 1;
        }
        proof {
            assert(!fo.contains(order@));
        }
        None
    }

    /// Compiles the full listing statement: the select, the `WHERE`
    /// clause, the `ORDER BY` clause and the window placeholders, with
    /// the bind values in placeholder order.
    fn fetch_all_query(
        search: Option<String>,
        order: Option<String>,
        parent_id: Option<i64>,
        offset: i64,
        limit: i64,
    ) -> (q: Query)
        ensures
            q.sql@ == spec_fetch_all_sql(opt_str(search), opt_str(order), Self::spec_fields()),
            binds_model(q.binds@) == spec_fetch_all_binds(
                opt_str(search),
                opt_i64(parent_id),
                offset as int,
                limit as int,
                Self::spec_fields(),
            ),
    {
        let search_s = match search {
            Some(s) => s,
            None => String::new(),
        };
        let order_s = match order {
            Some(s) => s,
            None => String::new(),
        };
        let toks = Self::tokens(search_s);
        let w = match Self::create_query_where(&toks) {
            Some(s) => s,
            None => String::new(),
        };
        let o = match Self::create_query_order(order_s) {
            Some(s) => s,
            None => String::new(),
        };
        let mut sql = String::from_str("SELECT * FROM ");
        sql.append(Self::table());
        sql.append(" ");
        sql.append(w.as_str());
        sql.append(" ");
        sql.append(o.as_str());
        sql.append(" limit ?, ?");
        let mut binds: Vec<BindValue> = Vec::new();
        if !Self::field_parent().is_empty() {
            let p = match parent_id {
                Some(v) => v,
                None => 0,
            };
            binds.push(BindValue::Int(p));
        }
        let ghost binds_a = binds@;
        let filled = Self::fill_query_where(toks);
        let mut token_binds = binds_of_tokens(filled);
        let ghost binds_b = token_binds@;
        binds.append(&mut token_binds);
        proof {
            assert(binds_model(binds@) =~= binds_model(binds_a) + binds_model(binds_b));
        }
        let ghost binds_c = binds@;
        binds.push(BindValue::Int(offset));
        let ghost binds_d = binds@;
        binds.push(BindValue::Int(limit));
        proof {
            assert(binds_model(binds_d) =~= binds_model(binds_c).push(BindModel::Int(offset as int)));
            assert(binds_model(binds@) =~= binds_model(binds_d).push(BindModel::Int(limit as int)));
            assert(binds_model(binds@) =~= spec_fetch_all_binds(
                opt_str(search),
                opt_i64(parent_id),
                offset as int,
                limit as int,
                Self::spec_fields(),
            ));
        }
        Query { sql, binds }
    }
}

} // verus!
