//! Turning a handler's panic into an answer: the log line and the
//! `500 Internal Server Error` body.
use vstd::prelude::*;
use crate::error::{error_code_text, ErrorCode, ErrorResponse, Module};
use crate::text::{concat, owned};

verus! {

/// The layer that wraps a service with panic recovery.
pub struct RecoverLayer;

/// A service wrapped with panic recovery.
pub struct RecoverService<S> {
    pub inner: S,
}

impl RecoverLayer {
    /// Wraps `inner`.
    pub fn layer<S>(&self, inner: S) -> (r: RecoverService<S>)
        ensures
            r.inner == inner,
    {
        RecoverService { inner }
    }
}

/// What a panic carried, as far as the answer tells it.
pub enum PanicPayload {
    /// A `String` or `&str` message.
    Message(String),
    /// Anything else.
    Other,
}

/// The text of a panic: its message, else `unknown panic`.
pub fn panic_message(p: &PanicPayload) -> (r: String)
    ensures
        r@ == (match *p {
            PanicPayload::Message(m) => m@,
            PanicPayload::Other => "unknown panic"@,
        }),
{
    match p {
        PanicPayload::Message(m) => m.clone(),
        PanicPayload::Other => owned("unknown panic"),
    }
}

/// The log line of a panic: `[PANIC] {method} {path} => {message}`.
pub fn panic_log_line(method: &str, path: &str, message: &str) -> (r: String)
    ensures
        r@ == "[PANIC] "@ + method@ + " "@ + path@ + " => "@ + message@,
{
    let mut r = concat("[PANIC] ", method);
    r.append(" ");
    r.append(path);
    r.append(" => ");
    r.append(message);
    r
}

/// The status of the answer to a panic.
pub const PANIC_STATUS: u16 = 500;

/// The body of the answer to a panic: not a success, code
/// `ucs-fe.non.internal_error`, message `Internal server error`.
pub fn panic_reply() -> (r: ErrorResponse)
    ensures
        !r.success,
        r.error_code@ == error_code_text(Module::NonBusiness, ErrorCode::INTERNAL_ERROR@),
        r.message@ == "Internal server error"@,
{
    ErrorResponse::new(&Module::NonBusiness, &ErrorCode(ErrorCode::INTERNAL_ERROR), "Internal server error")
}

} // verus!
