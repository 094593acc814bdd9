//! The values a statement parameter can bind: the closed set of column types
//! that the entities use. Keeping the binding list in this one type lets a
//! contract speak of the whole list at once.

use vstd::prelude::*;

verus! {

/// One value bound to a statement placeholder. An `Opt` variant binds NULL
/// when it holds `None`.
#[derive(Debug, Clone, PartialEq)]
pub enum SqlValue {
    Int(i32),
    OptInt(Option<i32>),
    Bool(bool),
    Text(String),
    OptText(Option<String>),
    TextArray(Vec<String>),
    Json(String),
    Date(i64),
    OptDate(Option<i64>),
}

} // verus!
