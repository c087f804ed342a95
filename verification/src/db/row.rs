//! Rows and statement parameters as the engine exchanges them: sequences of
//! nullable text.

use vstd::prelude::*;
use crate::db::engine;
use crate::db::error::StoreError;

verus! {

/// A nullable text value as contracts see it.
pub open spec fn text_view(value: Option<String>) -> Option<Seq<char>> {
    match value {
        Some(s) => Some(s@),
        None => None,
    }
}

/// A row, or a parameter list, as contracts see it.
pub open spec fn cells(row: Seq<Option<String>>) -> Seq<Option<Seq<char>>> {
    Seq::new(row.len(), |i: int| text_view(row[i]))
}

/// A copy of a nullable text value.
pub fn copy_text(value: &Option<String>) -> (r: Option<String>)
    ensures
        text_view(r) == text_view(*value),
{
    match value {
        Some(s) => Some(s.clone()),
        None => None,
    }
}

/// The parameter list that binds one text value.
pub fn one_text(value: &str) -> (r: Vec<Option<String>>)
    ensures
        cells(r@) =~= seq![Some(value@)],
{
    vec![Some(value.to_owned())]
}

/// The parameter list that binds two text values, in order.
pub fn two_texts(first: &str, second: &str) -> (r: Vec<Option<String>>)
    ensures
        cells(r@) =~= seq![Some(first@), Some(second@)],
{
    vec![Some(first.to_owned()), Some(second.to_owned())]
}

/// The parameter list that binds three text values, in order.
pub fn three_texts(first: &str, second: &str, third: &str) -> (r: Vec<Option<String>>)
    ensures
        cells(r@) =~= seq![Some(first@), Some(second@), Some(third@)],
{
    vec![Some(first.to_owned()), Some(second.to_owned()), Some(third.to_owned())]
}

/// What the store makes of a write: the engine's count of changed rows is
/// not looked at, so a statement that matched no row is a success like any
/// other; an engine error is passed on as the store's own.
pub fn written(outcome: Result<usize, rusqlite::Error>) -> (r: Result<(), StoreError>)
    ensures
        outcome is Ok <==> r is Ok,
        r matches Err(e) ==> e is Constraint || e is Engine,
{
    match engine::checked(outcome) {
        Ok(_) => Ok(()),
        Err(e) => Err(e),
    }
}

} // verus!
