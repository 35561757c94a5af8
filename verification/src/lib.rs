//! A generic resource-storage core: one implementation of
//! create/retrieve/update/delete/list-with-search shared by many record
//! types.  Each record type supplies its persistence queries and its
//! validation rules; the core compiles free-text searches into
//! parameterized filter clauses, checks page windows, confirms parent
//! ownership of nested records, and turns every outcome into a response.
//!
//! The core never talks to a database or a network itself: it builds the
//! query text and the ordered bind values, and it decides, from the results
//! it is handed, which response follows.  A thin outer program performs the
//! actual calls.

pub mod crud;
pub mod list;
pub mod numbers;
pub mod prelude;
pub mod text;
pub mod traits;
pub mod types;
