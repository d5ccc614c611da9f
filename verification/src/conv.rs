//! Conversions between text, optional values and numbers.
use vstd::prelude::*;
use crate::text::{chars_of, owned, parse_i64, parse_i64_chars, trim, trim_chars};

verus! {

/// The integer the trimmed text denotes, or `default`.
pub open spec fn text_to_i64_or(s: Seq<char>, default: i64) -> i64 {
    match parse_i64(trim(s)) {
        Some(v) => v as i64,
        None => default,
    }
}

/// Parses `s`, ignoring surrounding white space, as an `i64`; `default` when
/// it is empty or not an integer.
pub fn string_to_i64_default(s: &str, default: i64) -> (r: i64)
    ensures
        r == text_to_i64_or(s@, default),
{
    let v = chars_of(s);
    let t = trim_chars(&v);
    if t.len() == 0 {
        return default;
    }
    match parse_i64_chars(&t) {
        Some(n) => n,
        None => default,
    }
}

/// The `i32` the trimmed text denotes, or `default` when it is empty, not an
/// integer, or outside the range of `i32`.
pub open spec fn text_to_i32_or(s: Seq<char>, default: i32) -> i32 {
    match parse_i64(trim(s)) {
        Some(v) => if i32::MIN <= v <= i32::MAX { v as i32 } else { default },
        None => default,
    }
}

/// Parses `s`, ignoring surrounding white space, as an `i32`; `default` when
/// it is empty, not an integer, or does not fit in an `i32`.
pub fn string_to_i32_default(s: &str, default: i32) -> (r: i32)
    ensures
        r == text_to_i32_or(s@, default),
{
    let v = chars_of(s);
    let t = trim_chars(&v);
    if t.len() == 0 {
        return default;
    }
    match parse_i64_chars(&t) {
        Some(n) => {
            if i32::MIN as i64 <= n && n <= i32::MAX as i64 {
                n as i32
            } else {
                default
            }
        },
        None => default,
    }
}

/// The string, or empty.
pub fn opt_string(v: Option<String>) -> (r: String)
    ensures
        match v {
            Some(s) => r == s,
            None => r@ == Seq::<char>::empty(),
        },
{
    match v {
        Some(s) => s,
        None => String::new(),
    }
}

/// The string, or `default`.
pub fn opt_string_or(v: Option<String>, default: &str) -> (r: String)
    ensures
        match v {
            Some(s) => r == s,
            None => r@ == default@,
        },
{
    match v {
        Some(s) => s,
        None => owned(default),
    }
}

/// The string, or empty.
pub fn null_string_to_string(v: Option<String>) -> (r: String)
    ensures
        match v {
            Some(s) => r == s,
            None => r@ == Seq::<char>::empty(),
        },
{
    opt_string(v)
}

/// `None` for an empty string, else the string.
pub fn new_null_string(s: &str) -> (r: Option<String>)
    ensures
        s@.len() == 0 ==> r is None,
        s@.len() > 0 ==> (r matches Some(t) && t@ == s@),
{
    if s.is_empty() {
        None
    } else {
        Some(owned(s))
    }
}

/// The value, or 0.
pub fn opt_i64(v: Option<i64>) -> (r: i64)
    ensures
        r == (match v {
            Some(x) => x,
            None => 0,
        }),
{
    match v {
        Some(x) => x,
        None => 0,
    }
}

/// The value, or `default`.
pub fn opt_i64_or(v: Option<i64>, default: i64) -> (r: i64)
    ensures
        r == (match v {
            Some(x) => x,
            None => default,
        }),
{
    match v {
        Some(x) => x,
        None => default,
    }
}

/// `None` for zero, else the value.
pub fn new_null_i64(i: i64) -> (r: Option<i64>)
    ensures
        r == (if i == 0 { None } else { Some(i) }),
{
    if i == 0 {
        None
    } else {
        Some(i)
    }
}

/// The value, or 0.
pub fn opt_i32(v: Option<i32>) -> (r: i32)
    ensures
        r == (match v {
            Some(x) => x,
            None => 0,
        }),
{
    match v {
        Some(x) => x,
        None => 0,
    }
}

/// The value, or `default`.
pub fn opt_i32_or(v: Option<i32>, default: i32) -> (r: i32)
    ensures
        r == (match v {
            Some(x) => x,
            None => default,
        }),
{
    match v {
        Some(x) => x,
        None => default,
    }
}

/// `None` for zero, else the value.
pub fn new_null_i32(i: i32) -> (r: Option<i32>)
    ensures
        r == (if i == 0 { None } else { Some(i) }),
{
    if i == 0 {
        None
    } else {
        Some(i)
    }
}

/// The value, or `default`.
pub fn opt_i16_or(v: Option<i16>, default: i16) -> (r: i16)
    ensures
        r == (match v {
            Some(x) => x,
            None => default,
        }),
{
    match v {
        Some(x) => x,
        None => default,
    }
}

/// `None` for zero, else the value.
pub fn new_null_i16(i: i16) -> (r: Option<i16>)
    ensures
        r == (if i == 0 { None } else { Some(i) }),
{
    if i == 0 {
        None
    } else {
        Some(i)
    }
}

/// The value, or `false`.
pub fn opt_bool(v: Option<bool>) -> (r: bool)
    ensures
        r == (match v {
            Some(x) => x,
            None => false,
        }),
{
    match v {
        Some(x) => x,
        None => false,
    }
}

/// Always present.
pub fn new_null_bool(b: bool) -> (r: Option<bool>)
    ensures
        r == Some(b),
{
    Some(b)
}

} // verus!
