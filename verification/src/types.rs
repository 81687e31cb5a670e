//! The closed value union used to pass typed property values across the
//! capability boundary, and the wrapper for the native dynamic value type.

use vstd::prelude::*;

use crate::decimal::{
    format_i64, parse_i32_or_zero, parse_i64_or_zero, spec_int_string, spec_parse_i32_or_zero,
    spec_parse_i64_or_zero,
};

verus! {

/// A dynamically-typed property value: exactly a 32-bit integer, a 64-bit
/// integer, or a string.  Conversions between the variants are lossy-safe:
/// a string that does not denote a number in range converts to zero rather
/// than failing.
#[derive(Debug)]
pub enum Value {
    INT(i32),
    LONG(i64),
    STR(String),
}

/// What `as_int` returns: the 32-bit value as is, a 64-bit value truncated,
/// and a string's denoted number, zero when it denotes none in range.
pub open spec fn spec_as_int(v: Value) -> i32 {
    match v {
        Value::INT(x) => x,
        Value::LONG(x) => x as i32,
        Value::STR(s) => spec_parse_i32_or_zero(s@),
    }
}

/// What `as_long` returns: either integer widened or kept, and a string's
/// denoted number, zero when it denotes none in range.
pub open spec fn spec_as_long(v: Value) -> i64 {
    match v {
        Value::INT(x) => x as i64,
        Value::LONG(x) => x,
        Value::STR(s) => spec_parse_i64_or_zero(s@),
    }
}

/// What `as_string` returns: an integer's decimal rendering, or the string
/// itself.
pub open spec fn spec_as_string(v: Value) -> Seq<char> {
    match v {
        Value::INT(x) => spec_int_string(x as int),
        Value::LONG(x) => spec_int_string(x as int),
        Value::STR(s) => s@,
    }
}

/// Whether two values are equal: same variant, same content, strings by
/// their characters.
pub open spec fn spec_value_eq(a: Value, b: Value) -> bool {
    match (a, b) {
        (Value::INT(x), Value::INT(y)) => x == y,
        (Value::LONG(x), Value::LONG(y)) => x == y,
        (Value::STR(x), Value::STR(y)) => x@ == y@,
        _ => false,
    }
}

impl Value {
    /// Reads the value as a 32-bit integer.
    pub fn as_int(&self) -> (r: i32)
        ensures
            r == spec_as_int(*self),
    {
        match self {
            Value::INT(value) => *value,
            Value::LONG(value) => #[verifier::truncate] (*value as i32),
            Value::STR(value) => parse_i32_or_zero(value.as_str()),
        }
    }

    /// Reads the value as a 64-bit integer.
    pub fn as_long(&self) -> (r: i64)
        ensures
            r == spec_as_long(*self),
    {
        match self {
            Value::INT(value) => *value as i64,
            Value::LONG(value) => *value,
            Value::STR(value) => parse_i64_or_zero(value.as_str()),
        }
    }

    /// Reads the value as a string.
    pub fn as_string(&self) -> (r: String)
        ensures
            r@ == spec_as_string(*self),
    {
        match self {
            Value::INT(value) => format_i64(*value as i64),
            Value::LONG(value) => format_i64(*value),
            Value::STR(value) => value.clone(),
        }
    }
}

impl PartialEq for Value {
    /// Compares two values: same variant and same content.
    fn eq(&self, other: &Value) -> (r: bool) {
        match (self, other) {
            (Value::INT(x), Value::INT(y)) => *x == *y,
            (Value::LONG(x), Value::LONG(y)) => *x == *y,
            (Value::STR(x), Value::STR(y)) => *x == *y,
            _ => false,
        }
    }
}

impl vstd::std_specs::cmp::PartialEqSpecImpl for Value {
    open spec fn obeys_eq_spec() -> bool {
        true
    }

    open spec fn eq_spec(&self, other: &Value) -> bool {
        spec_value_eq(*self, *other)
    }
}

impl From<i16> for Value {
    /// A 16-bit integer widens into the 32-bit variant.
    fn from(value: i16) -> (r: Value) {
        Value::INT(value as i32)
    }
}

impl vstd::std_specs::convert::FromSpecImpl<i16> for Value {
    open spec fn obeys_from_spec() -> bool {
        true
    }

    open spec fn from_spec(value: i16) -> Value {
        Value::INT(value as i32)
    }
}

impl From<i32> for Value {
    fn from(value: i32) -> (r: Value) {
        Value::INT(value)
    }
}

impl vstd::std_specs::convert::FromSpecImpl<i32> for Value {
    open spec fn obeys_from_spec() -> bool {
        true
    }

    open spec fn from_spec(value: i32) -> Value {
        Value::INT(value)
    }
}

impl From<i64> for Value {
    fn from(value: i64) -> (r: Value) {
        Value::LONG(value)
    }
}

impl vstd::std_specs::convert::FromSpecImpl<i64> for Value {
    open spec fn obeys_from_spec() -> bool {
        true
    }

    open spec fn from_spec(value: i64) -> Value {
        Value::LONG(value)
    }
}

/// A value constructed from a 32-bit integer reads back as that integer,
/// through `as_int` exactly and through `as_long` widened.
pub proof fn lemma_value_int_roundtrip(n: i32)
    ensures
        spec_as_int(Value::INT(n)) == n,
        spec_as_long(Value::INT(n)) == n as i64,
{
}

/// A value constructed from a string that denotes a 64-bit integer reads
/// back as that integer through `as_long`; one constructed from a string
/// that denotes no 64-bit integer — or none at all — reads back as zero.
pub proof fn lemma_value_string_reads_as_number(s: String)
    ensures
        crate::decimal::spec_parse_int(s@) matches Some(m) ==> {
            &&& (i64::MIN <= m <= i64::MAX ==> spec_as_long(Value::STR(s)) == m)
            &&& (!(i64::MIN <= m <= i64::MAX) ==> spec_as_long(Value::STR(s)) == 0)
        },
        crate::decimal::spec_parse_int(s@) is None ==> spec_as_int(Value::STR(s)) == 0
            && spec_as_long(Value::STR(s)) == 0,
{
}

/// A wrapper for the native dynamic value: what crosses the capability
/// boundary, carried as the closed union.
pub struct Variant {
    pub value: Value,
}

impl Default for Variant {
    /// An empty dynamic value reads as integer zero.
    fn default() -> (r: Self)
        ensures
            r.value == Value::INT(0),
    {
        Variant { value: Value::INT(0) }
    }
}

} // verus!
