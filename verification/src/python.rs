//! What the frame matcher reads of Python values.

use vstd::prelude::*;

verus! {

/// A Python value, as far as the frame matcher tells values apart.
#[derive(Debug)]
pub enum PyValue {
    /// `None`.
    Nil,
    /// `True` or `False`. Python counts `bool` as an `int`; on the wire it is not one.
    Bool(bool),
    /// An `int`. `exact` tells `int` itself from a subclass; `value` is `None` past 128 bits.
    Int { exact: bool, value: Option<i128> },
    /// A `str`. `exact` tells `str` itself from a subclass; `text` is `None` where the string has
    /// no UTF-8 form, such as one with a lone surrogate.
    Str { exact: bool, text: Option<String> },
    /// A `list` or an instance of a subclass.
    List(Vec<PyValue>),
    /// Anything else.
    Other,
}

/// A Python `dict`: its entries in iteration order, which is insertion order.
#[derive(Debug)]
pub struct PyDict {
    pub entries: Vec<(PyValue, PyValue)>,
}

/// Whether `key` is a plain `str` that reads `name`.
pub open spec fn is_key(key: PyValue, name: Seq<char>) -> bool {
    key matches PyValue::Str { exact: true, text: Some(text) } && text@ == name
}

/// The value of a plain `int` that an unsigned 64-bit integer can hold.
pub open spec fn uint_of(value: PyValue) -> Option<u64> {
    match value {
        PyValue::Int { exact: true, value: Some(n) } => if 0 <= n <= u64::MAX {
            Some(n as u64)
        } else {
            None
        },
        _ => None,
    }
}

/// Whether `key` is exactly the `str` `name`.
pub fn key_is(key: &PyValue, name: &str) -> (res: bool)
    ensures
        res == is_key(*key, name@),
{
    match key {
        PyValue::Str { exact: true, text: Some(text) } => *text == name.to_owned(),
        _ => false,
    }
}

/// `value` as a `u64`, where the generic encoder writes it as an unsigned integer too.
///
/// Booleans and other subclasses of `int` are turned away, and so are negative values and those
/// past 64 bits: the generic encoder writes each of these in another form.
pub fn exact_uint(value: &PyValue) -> (res: Option<u64>)
    ensures
        res == uint_of(*value),
{
    match value {
        PyValue::Int { exact: true, value: Some(n) } => {
            if 0 <= *n && *n <= u64::MAX as i128 {
                Some(*n as u64)
            } else {
                None
            }
        },
        _ => None,
    }
}

/// A key is the `str` `name` exactly where it is a plain `str` with that text: a subclass of `str`,
/// a `str` without a UTF-8 form, and a value of any other type is not.
pub proof fn law_keys_are_plain_strings(key: PyValue, name: &str, res: bool)
    requires
        call_ensures(key_is, (&key, name), res),
    ensures
        key matches PyValue::Str { exact, text: Some(text) } ==> (res <==> exact && text@ == name@),
        key matches PyValue::Str { exact: _, text: None } ==> !res,
        !(key is Str) ==> !res,
{
}

/// The unsigned integers that values are read as are those of the plain `int`s that hold them:
/// reading gives `n` exactly where the value is a plain `int` of value `n`.
pub proof fn law_plain_ints_are_read_exactly(value: PyValue, res: Option<u64>)
    requires
        call_ensures(exact_uint, (&value,), res),
    ensures
        forall|n: u64|
            res == Some(n) <==> value == (PyValue::Int {
                exact: true,
                value: Some(#[trigger] (n as i128)),
            }),
{
}

} // verus!
