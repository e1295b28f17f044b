//! The value half of a wire payload entry: either a piece of text or a
//! signed integer, as the device's flat JSON settings object carries
//! them. The unverified shell converts these one-for-one to and from
//! JSON scalars.

use vstd::prelude::*;

use crate::text::{i64_to_string, parse_i64, spec_int_digits, spec_parse_i64};

verus! {

/// A wire scalar: text or a signed 64-bit integer.
#[derive(Debug, Clone)]
pub enum StringOrInt {
    String(String),
    Int(i64),
}

/// The mathematical value of a wire scalar.
pub enum WireValue {
    String(Seq<char>),
    Int(int),
}

impl View for StringOrInt {
    type V = WireValue;

    open spec fn view(&self) -> WireValue {
        match self {
            StringOrInt::String(s) => WireValue::String(s@),
            StringOrInt::Int(i) => WireValue::Int(*i as int),
        }
    }
}

/// The text a wire scalar turns into: the characters themselves for
/// text, the decimal rendering for an integer.
pub open spec fn spec_value_text(v: WireValue) -> Seq<char> {
    match v {
        WireValue::String(s) => s,
        WireValue::Int(i) => spec_int_digits(i),
    }
}

/// The integer a wire scalar turns into: the value itself for an
/// integer, the parsed decimal value for text that holds one.
pub open spec fn spec_value_int(v: WireValue) -> Option<int> {
    match v {
        WireValue::String(s) => spec_parse_i64(s),
        WireValue::Int(i) => Some(i),
    }
}

impl StringOrInt {
    /// The text, if this scalar is one.
    pub fn as_str(&self) -> (r: Option<&str>)
        ensures
            self@ matches WireValue::String(t) ==> (r matches Some(v) && v@ == t),
            self@ matches WireValue::Int(_) ==> r is None,
    {
        match self {
            StringOrInt::String(s) => Some(s.as_str()),
            StringOrInt::Int(_) => None,
        }
    }

    /// The integer, if this scalar is one.
    pub fn as_int(&self) -> (r: Option<i64>)
        ensures
            self@ matches WireValue::Int(i) ==> (r matches Some(v) && v == i),
            self@ matches WireValue::String(_) ==> r is None,
    {
        match self {
            StringOrInt::String(_) => None,
            StringOrInt::Int(i) => Some(*i),
        }
    }

    /// Turn the scalar into text: text stays itself, an integer is
    /// rendered in decimal.
    pub fn into_string(self) -> (r: String)
        ensures
            r@ == spec_value_text(self@),
    {
        match self {
            StringOrInt::String(s) => s,
            StringOrInt::Int(i) => i64_to_string(i),
        }
    }

    /// Turn the scalar into an integer: an integer stays itself, text
    /// is parsed as decimal and yields nothing when it is not a decimal
    /// integer in range.
    pub fn into_i64(self) -> (r: Option<i64>)
        ensures
            r matches Some(v) ==> spec_value_int(self@) == Some(v as int),
            r is None ==> spec_value_int(self@) is None,
    {
        match self {
            StringOrInt::String(s) => parse_i64(s.as_str()),
            StringOrInt::Int(i) => Some(i),
        }
    }
}

} // verus!
