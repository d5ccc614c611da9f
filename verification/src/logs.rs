//! Log levels and the `key=value` fields of log lines.
use vstd::prelude::*;
use crate::text::{chars_of, chars_eq, concat, i64_text, int_text, lower, lower_chars, owned, push_nat_text, nat_text};

verus! {

#[verifier::external_type_specification]
#[verifier::external_body]
pub struct ExLevel(tracing::Level);

/// The levels a log configuration can name.
pub enum LogLevel {
    Debug,
    Info,
    Warn,
    Error,
}

/// The level a configuration text names, ignoring ASCII case: `debug`,
/// `warn` and `error` name theirs, anything else is `Info`.
pub open spec fn level_of_text(s: Seq<char>) -> LogLevel {
    let l = lower(s);
    if l == "debug"@ {
        LogLevel::Debug
    } else if l == "warn"@ {
        LogLevel::Warn
    } else if l == "error"@ {
        LogLevel::Error
    } else {
        LogLevel::Info
    }
}

/// Texts that differ only in ASCII case name the same level.
pub proof fn lemma_level_ignores_case(a: Seq<char>, b: Seq<char>)
    requires
        lower(a) == lower(b),
    ensures
        level_of_text(a) == level_of_text(b),
{
}

/// The level a configuration text names.
pub fn parse_log_level(level: &str) -> (r: LogLevel)
    ensures
        r == level_of_text(level@),
{
    let v = chars_of(level);
    let l = lower_chars(&v);
    let debug = chars_of("debug");
    let warn = chars_of("warn");
    let error = chars_of("error");
    if chars_eq(&l, &debug) {
        LogLevel::Debug
    } else if chars_eq(&l, &warn) {
        LogLevel::Warn
    } else if chars_eq(&l, &error) {
        LogLevel::Error
    } else {
        LogLevel::Info
    }
}

/// The `tracing` level standing for a level of the configuration.
pub uninterp spec fn tracing_level(l: LogLevel) -> tracing::Level;

/// The `tracing::Level` constant of the same name (`DEBUG`, `INFO`, `WARN`,
/// `ERROR`).
#[verifier::external_body]
fn to_tracing_level(l: LogLevel) -> (r: tracing::Level)
    ensures
        r == tracing_level(l),
{
    match l {
        LogLevel::Debug => tracing::Level::DEBUG,
        LogLevel::Info => tracing::Level::INFO,
        LogLevel::Warn => tracing::Level::WARN,
        LogLevel::Error => tracing::Level::ERROR,
    }
}

/// The `tracing` level a configuration text names; `INFO` unless it reads
/// `debug`, `warn` or `error` in any ASCII case.
pub fn parse_level(level: &str) -> (r: tracing::Level)
    ensures
        r == tracing_level(level_of_text(level@)),
{
    to_tracing_level(parse_log_level(level))
}

/// A value that can stand in a `key=value` log field.
pub trait FieldValue {
    /// The value's text.
    spec fn field_text_spec(&self) -> Seq<char>;

    /// The value's text.
    fn field_text(&self) -> (r: String)
        ensures
            r@ == self.field_text_spec(),
    ;
}

impl FieldValue for &str {
    open spec fn field_text_spec(&self) -> Seq<char> {
        (*self)@
    }

    fn field_text(&self) -> (r: String) {
        owned(*self)
    }
}

impl FieldValue for String {
    open spec fn field_text_spec(&self) -> Seq<char> {
        self@
    }

    fn field_text(&self) -> (r: String) {
        self.clone()
    }
}

impl FieldValue for i32 {
    open spec fn field_text_spec(&self) -> Seq<char> {
        int_text(*self as int)
    }

    fn field_text(&self) -> (r: String) {
        i64_text(*self as i64)
    }
}

impl FieldValue for i64 {
    open spec fn field_text_spec(&self) -> Seq<char> {
        int_text(*self as int)
    }

    fn field_text(&self) -> (r: String) {
        i64_text(*self)
    }
}

impl FieldValue for u32 {
    open spec fn field_text_spec(&self) -> Seq<char> {
        nat_text(*self as nat)
    }

    fn field_text(&self) -> (r: String) {
        let mut s = String::new();
        push_nat_text(&mut s, *self as u64);
        assert(s@ =~= nat_text(*self as nat));
        s
    }
}

impl FieldValue for u64 {
    open spec fn field_text_spec(&self) -> Seq<char> {
        nat_text(*self as nat)
    }

    fn field_text(&self) -> (r: String) {
        let mut s = String::new();
        push_nat_text(&mut s, *self);
        assert(s@ =~= nat_text(*self as nat));
        s
    }
}

impl FieldValue for usize {
    open spec fn field_text_spec(&self) -> Seq<char> {
        nat_text(*self as nat)
    }

    fn field_text(&self) -> (r: String) {
        let mut s = String::new();
        push_nat_text(&mut s, *self as u64);
        assert(s@ =~= nat_text(*self as nat));
        s
    }
}

impl FieldValue for bool {
    open spec fn field_text_spec(&self) -> Seq<char> {
        if *self {
            "true"@
        } else {
            "false"@
        }
    }

    fn field_text(&self) -> (r: String) {
        if *self {
            owned("true")
        } else {
            owned("false")
        }
    }
}

/// The log field `key=value`.
pub fn any_field<T: FieldValue>(key: &str, value: T) -> (r: String)
    ensures
        r@ == key@ + "="@ + value.field_text_spec(),
{
    let mut r = concat(key, "=");
    let t = value.field_text();
    r.append(t.as_str());
    r
}

/// The log field `flag=value`.
pub fn flag(value: &str) -> (r: String)
    ensures
        r@ == "flag="@ + value@,
{
    concat("flag=", value)
}

/// The logger handle; logging goes through the global subscriber, so there
/// is nothing to hand out.
pub fn get_logger() {
}

/// Flushes the logger; lines are written as they come, so nothing is pending.
pub fn sync() {
}

} // verus!
