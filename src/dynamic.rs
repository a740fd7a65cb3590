//! Dynamically typed values, as they arrive from decoded data, and predicates
//! on their kind.
use vstd::prelude::*;

verus! {

/// A value whose kind is known only at run time.
#[derive(Debug, PartialEq)]
pub enum Dynamic {
    /// A present but empty slot, such as JSON `null`.
    Absent,
    Int(i64),
    /// A floating-point number, held as its IEEE 754 bit pattern.
    Float(u64),
    Text(String),
    Bool(bool),
    /// A point in time, in milliseconds since the Unix epoch.
    Date(i64),
    Array(Vec<Dynamic>),
    /// Key-value pairs, in their order of appearance.
    Object(Vec<(String, Dynamic)>),
    /// Something that can be called with no arguments; its code is not carried.
    Function,
}

/// Whether no value is present. A present value is never empty, not even an
/// empty string or an empty container.
pub fn is_empty<T>(value: Option<T>) -> (r: bool)
    ensures
        r == value is None,
{
    value.is_none()
}

/// Whether `value` is an integer or a floating-point number.
pub fn is_number(value: &Dynamic) -> (r: bool)
    ensures
        r == (value is Int || value is Float),
{
    match value {
        Dynamic::Int(_) | Dynamic::Float(_) => true,
        _ => false,
    }
}

/// Whether `value` is a string.
pub fn is_string(value: &Dynamic) -> (r: bool)
    ensures
        r == value is Text,
{
    match value {
        Dynamic::Text(_) => true,
        _ => false,
    }
}

/// Whether `value` is a sequence.
pub fn is_array(value: &Dynamic) -> (r: bool)
    ensures
        r == value is Array,
{
    match value {
        Dynamic::Array(_) => true,
        _ => false,
    }
}

/// Whether `value` is a key-value mapping.
pub fn is_object(value: &Dynamic) -> (r: bool)
    ensures
        r == value is Object,
{
    match value {
        Dynamic::Object(_) => true,
        _ => false,
    }
}

/// Whether `value` can be called with no arguments.
pub fn is_function(value: &Dynamic) -> (r: bool)
    ensures
        r == value is Function,
{
    match value {
        Dynamic::Function => true,
        _ => false,
    }
}

/// Whether `value` is a boolean.
pub fn is_boolean(value: &Dynamic) -> (r: bool)
    ensures
        r == value is Bool,
{
    match value {
        Dynamic::Bool(_) => true,
        _ => false,
    }
}

/// Whether `value` is a date.
pub fn is_date(value: &Dynamic) -> (r: bool)
    ensures
        r == value is Date,
{
    match value {
        Dynamic::Date(_) => true,
        _ => false,
    }
}

} // verus!
