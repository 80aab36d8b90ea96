//! The three-way runtime value system: numbers (as IEEE single bit
//! patterns), truth values, and words.

use vstd::prelude::*;
use crate::single::{eq_bits, f_eq, f_gt, f_lt, gt_bits, lt_bits};
use crate::strutil::{seq_char_less, str_equal, str_less};

verus! {

/// A terminal value an expression can evaluate to.
#[derive(Debug, PartialEq)]
pub enum Value {
    /// A number, as the bit pattern of an IEEE single.
    Float(u32),
    /// A truth value.
    Bool(bool),
    /// A string value.
    Word(String),
}

impl Clone for Value {
    /// A copy of the value, equal to the original.
    fn clone(&self) -> (r: Self)
        ensures
            r == *self,
    {
        match self {
            Value::Float(b) => Value::Float(*b),
            Value::Bool(b) => Value::Bool(*b),
            Value::Word(s) => Value::Word(s.clone()),
        }
    }
}

/// Both values carry the same tag: the condition under which a comparison
/// may proceed.
pub open spec fn sv_same_tag(a: Value, b: Value) -> bool {
    match (a, b) {
        (Value::Float(_), Value::Float(_)) => true,
        (Value::Bool(_), Value::Bool(_)) => true,
        (Value::Word(_), Value::Word(_)) => true,
        _ => false,
    }
}

/// Equality of two same-tagged values: IEEE equality on numbers, plain
/// equality on truth values, character equality on words.
pub open spec fn sv_eq(a: Value, b: Value) -> bool {
    match (a, b) {
        (Value::Float(x), Value::Float(y)) => eq_bits(x, y),
        (Value::Bool(x), Value::Bool(y)) => x == y,
        (Value::Word(x), Value::Word(y)) => x@ == y@,
        _ => false,
    }
}

/// Strict order on two same-tagged values: IEEE order on numbers, `false`
/// before `true`, lexicographic code point order on words.
pub open spec fn sv_lt(a: Value, b: Value) -> bool {
    match (a, b) {
        (Value::Float(x), Value::Float(y)) => lt_bits(x, y),
        (Value::Bool(x), Value::Bool(y)) => !x && y,
        (Value::Word(x), Value::Word(y)) => seq_char_less(x@, y@),
        _ => false,
    }
}

/// Strict reverse order on two same-tagged values.
pub open spec fn sv_gt(a: Value, b: Value) -> bool {
    match (a, b) {
        (Value::Float(x), Value::Float(y)) => gt_bits(x, y),
        (Value::Bool(x), Value::Bool(y)) => x && !y,
        (Value::Word(x), Value::Word(y)) => seq_char_less(y@, x@),
        _ => false,
    }
}

/// Whether the two values carry the same tag.
pub fn value_same_tag(a: &Value, b: &Value) -> (r: bool)
    ensures
        r == sv_same_tag(*a, *b),
{
    match (a, b) {
        (Value::Float(_), Value::Float(_)) => true,
        (Value::Bool(_), Value::Bool(_)) => true,
        (Value::Word(_), Value::Word(_)) => true,
        _ => false,
    }
}

/// Equality of two values, as `EQ` compares them.
pub fn value_eq(a: &Value, b: &Value) -> (r: bool)
    ensures
        r == sv_eq(*a, *b),
{
    match (a, b) {
        (Value::Float(x), Value::Float(y)) => f_eq(*x, *y),
        (Value::Bool(x), Value::Bool(y)) => x == y,
        (Value::Word(x), Value::Word(y)) => str_equal(x.as_str(), y.as_str()),
        _ => false,
    }
}

/// Strict order of two values, as `LT` compares them.
pub fn value_lt(a: &Value, b: &Value) -> (r: bool)
    ensures
        r == sv_lt(*a, *b),
{
    match (a, b) {
        (Value::Float(x), Value::Float(y)) => f_lt(*x, *y),
        (Value::Bool(x), Value::Bool(y)) => !*x && *y,
        (Value::Word(x), Value::Word(y)) => str_less(x.as_str(), y.as_str()),
        _ => false,
    }
}

/// Strict reverse order of two values, as `GT` compares them.
pub fn value_gt(a: &Value, b: &Value) -> (r: bool)
    ensures
        r == sv_gt(*a, *b),
{
    match (a, b) {
        (Value::Float(x), Value::Float(y)) => f_gt(*x, *y),
        (Value::Bool(x), Value::Bool(y)) => *x && !*y,
        (Value::Word(x), Value::Word(y)) => str_less(y.as_str(), x.as_str()),
        _ => false,
    }
}

} // verus!
