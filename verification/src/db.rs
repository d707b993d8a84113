//! The statements sent to the database: the SQL text and the values bound to
//! its parameters, by parameter name.

use vstd::prelude::*;

verus! {

/// A value bound to a statement parameter.
#[derive(Clone, Debug, PartialEq, Eq)]
pub enum Value {
    Null,
    Int(i64),
    Text(String),
    Bool(bool),
    Blob(Vec<u8>),
    /// A count, bound as the database driver binds a `usize`.
    Size(usize),
}

/// One SQL statement with its parameters, each named as the SQL names it
/// (`?1`, `:user_id`, ...).
pub struct Statement {
    pub sql: &'static str,
    pub params: Vec<(&'static str, Value)>,
}

/// An optional integer, bound as `NULL` when absent.
pub open spec fn opt_int_value(x: Option<i64>) -> Value {
    match x {
        Some(v) => Value::Int(v),
        None => Value::Null,
    }
}

/// Binds an optional integer: `NULL` when absent.
pub fn opt_int(x: Option<i64>) -> (r: Value)
    ensures
        r == opt_int_value(x),
{
    match x {
        Some(v) => Value::Int(v),
        None => Value::Null,
    }
}

/// An optional text, bound as `NULL` when absent.
pub open spec fn opt_text_value(x: Option<String>) -> Value {
    match x {
        Some(v) => Value::Text(v),
        None => Value::Null,
    }
}

/// Binds an optional text: `NULL` when absent.
pub fn opt_text(x: Option<String>) -> (r: Value)
    ensures
        r == opt_text_value(x),
{
    match x {
        Some(v) => Value::Text(v),
        None => Value::Null,
    }
}

} // verus!
