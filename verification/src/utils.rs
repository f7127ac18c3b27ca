//! The logic of the two input widgets shared by the forms: a number field
//! in which 0 means "not given", and the condition picker.

use vstd::prelude::*;
use crate::main_app::models::Condition;

verus! {

/// The number the field shows for an optional number: the number, or 0.
pub open spec fn field_start(v: Option<i64>) -> i64 {
    match v {
        Some(x) => x,
        None => 0,
    }
}

/// The optional number a field holds once edited: none when it shows 0.
pub open spec fn field_value(n: i64) -> Option<i64> {
    if n == 0 {
        None
    } else {
        Some(n)
    }
}

pub fn int_field_start(v: Option<i64>) -> (n: i64)
    ensures
        n == field_start(v),
{
    match v {
        Some(x) => x,
        None => 0,
    }
}

pub fn int_field_value(n: i64) -> (v: Option<i64>)
    ensures
        v == field_value(n),
{
    if n == 0 {
        None
    } else {
        Some(n)
    }
}

/// Showing an optional number in the field and reading it back untouched
/// gives the same value, except that a given 0 reads back as not given.
pub proof fn lemma_int_field_roundtrip(v: Option<i64>)
    ensures
        field_value(field_start(v)) == if v == Some(0i64) {
            None
        } else {
            v
        },
{
}

/// The text the condition picker shows for the chosen grade number: the
/// grade's name, or "None" when nothing (or no grade) is chosen.
pub fn condition_field_text(value: Option<i8>) -> (s: &'static str)
    ensures
        s@ == match value {
            Some(v) => match Condition::of_code(v) {
                Some(c) => c.label_spec(),
                None => "None"@,
            },
            None => "None"@,
        },
{
    match value {
        Some(v) => match Condition::from_code(v) {
            Some(c) => c.label(),
            None => "None",
        },
        None => "None",
    }
}

/// The grade number the picker stores when a grade is chosen.
pub fn condition_field_choice(c: Condition) -> (v: Option<i8>)
    ensures
        v == Some(c.code()),
{
    Some(c.to_code())
}

} // verus!
