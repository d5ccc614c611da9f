//! Request-level decisions of the middleware: which paths are not logged or
//! traced, the error envelope for bare error statuses, trace ids from
//! propagation headers, and the client's IP address.
use vstd::prelude::*;
use crate::text::{chars_contains, chars_of, concat, contains, nat_text, owned, push_nat_text, split_chars, split_text, str_eq, string_from, trim, trim_chars};
use crate::telemetry::EventLevel;

verus! {

// ── Error envelope ───────────────────────────────────────────────────────────

/// The error code and message for a bare error status.
pub open spec fn status_text(status: u16) -> (Seq<char>, Seq<char>) {
    if status == 400 {
        ("ucs-fe.non.bad_request"@, "bad request"@)
    } else if status == 401 {
        ("ucs-fe.non.unauthorized"@, "unauthorized"@)
    } else if status == 403 {
        ("ucs-fe.non.forbidden"@, "forbidden"@)
    } else if status == 404 {
        ("ucs-fe.non.not_found"@, "resource not found"@)
    } else if status == 405 {
        ("ucs-fe.non.method_not_allowed"@, "method not allowed"@)
    } else if status == 408 {
        ("ucs-fe.non.request_timeout"@, "request timed out"@)
    } else if status == 429 {
        ("ucs-fe.non.too_many_requests"@, "rate limit exceeded"@)
    } else if status == 500 {
        ("ucs-fe.non.unknown_err"@, "internal server error"@)
    } else if status == 503 {
        ("ucs-fe.non.service_unavailable"@, "service unavailable"@)
    } else if status == 504 {
        ("ucs-fe.non.gateway_timeout"@, "gateway timeout"@)
    } else {
        ("ucs-fe.non.unknown_err"@, "unknown error"@)
    }
}

/// The error code and message for a bare error status.
pub fn map_status(status: u16) -> (r: (&'static str, &'static str))
    ensures
        r.0@ == status_text(status).0,
        r.1@ == status_text(status).1,
{
    if status == 400 {
        ("ucs-fe.non.bad_request", "bad request")
    } else if status == 401 {
        ("ucs-fe.non.unauthorized", "unauthorized")
    } else if status == 403 {
        ("ucs-fe.non.forbidden", "forbidden")
    } else if status == 404 {
        ("ucs-fe.non.not_found", "resource not found")
    } else if status == 405 {
        ("ucs-fe.non.method_not_allowed", "method not allowed")
    } else if status == 408 {
        ("ucs-fe.non.request_timeout", "request timed out")
    } else if status == 429 {
        ("ucs-fe.non.too_many_requests", "rate limit exceeded")
    } else if status == 500 {
        ("ucs-fe.non.unknown_err", "internal server error")
    } else if status == 503 {
        ("ucs-fe.non.service_unavailable", "service unavailable")
    } else if status == 504 {
        ("ucs-fe.non.gateway_timeout", "gateway timeout")
    } else {
        ("ucs-fe.non.unknown_err", "unknown error")
    }
}

/// Whether an answer needs the error envelope: an error status (neither
/// 1xx, 2xx nor 3xx) whose body is not JSON already.
pub fn needs_error_envelope(status: u16, content_type: &str) -> (r: bool)
    ensures
        r == (!(100 <= status < 400) && !contains(content_type@, "application/json"@)),
{
    if 100 <= status && status < 400 {
        return false;
    }
    let ct = chars_of(content_type);
    let json = chars_of("application/json");
    !chars_contains(&ct, &json)
}

// ── Paths left out ───────────────────────────────────────────────────────────

/// The request log leaves out every path that contains one of these.
pub open spec fn behavior_skip_hit(path: Seq<char>) -> bool {
    ||| contains(path, "/test/"@)
    ||| contains(path, "/metrics"@)
    ||| contains(path, "/swagger"@)
    ||| contains(path, "/favicon.ico"@)
    ||| contains(path, "/health"@)
    ||| contains(path, "/livez"@)
    ||| contains(path, "/readyz"@)
    ||| contains(path, "/ping"@)
    ||| contains(path, "/monitor"@)
}

fn path_contains(path: &Vec<char>, needle: &str) -> (r: bool)
    ensures
        r == contains(path@, needle@),
{
    let n = chars_of(needle);
    chars_contains(path, &n)
}

/// Whether the request log leaves `path` out.
pub fn skip_behavior_log(path: &str) -> (r: bool)
    ensures
        r == behavior_skip_hit(path@),
{
    let p = chars_of(path);
    path_contains(&p, "/test/") || path_contains(&p, "/metrics") || path_contains(&p, "/swagger")
        || path_contains(&p, "/favicon.ico") || path_contains(&p, "/health") || path_contains(
        &p,
        "/livez",
    ) || path_contains(&p, "/readyz") || path_contains(&p, "/ping") || path_contains(&p, "/monitor")
}

/// The probe and system paths the tracing middleware leaves out.
pub open spec fn trace_skip_hit(path: Seq<char>) -> bool {
    ||| path == "/metrics"@
    ||| path == "/livez"@
    ||| path == "/readyz"@
    ||| path == "/favicon.ico"@
    ||| path == "/ping"@
    ||| path == "/monitor"@
}

/// Whether the tracing middleware leaves `path` out.
pub fn skip_trace(path: &str) -> (r: bool)
    ensures
        r == trace_skip_hit(path@),
{
    str_eq(path, "/metrics") || str_eq(path, "/livez") || str_eq(path, "/readyz") || str_eq(
        path,
        "/favicon.ico",
    ) || str_eq(path, "/ping") || str_eq(path, "/monitor")
}

/// The paths the request metrics leave out.
pub open spec fn metrics_skip_hit(path: Seq<char>) -> bool {
    ||| path == "/ping"@
    ||| path == "/swagger"@
    ||| path == "/favicon.ico"@
    ||| path == "/metrics"@
    ||| path == "/monitor"@
}

/// Whether the request metrics leave `path` out.
pub fn skip_metrics(path: &str) -> (r: bool)
    ensures
        r == metrics_skip_hit(path@),
{
    str_eq(path, "/ping") || str_eq(path, "/swagger") || str_eq(path, "/favicon.ico") || str_eq(path, "/metrics")
        || str_eq(path, "/monitor")
}

// ── Trace ids ────────────────────────────────────────────────────────────────

/// The trace id of the tracing middleware: the first present of
/// `X-App-Trace-ID`, `X-Trace-Id`, `traceparent`, `uber-trace-id`, whole,
/// or `unknown` when none is present or the first present one is empty.
pub open spec fn span_trace_id(app: Option<&str>, x: Option<&str>, tp: Option<&str>, uber: Option<&str>) -> Seq<char> {
    let first = if app is Some {
        app
    } else if x is Some {
        x
    } else if tp is Some {
        tp
    } else {
        uber
    };
    match first {
        Some(s) => if s@.len() > 0 {
            s@
        } else {
            "unknown"@
        },
        None => "unknown"@,
    }
}

/// The trace id the tracing middleware records.
pub fn trace_id_for_span(app: Option<&str>, x: Option<&str>, tp: Option<&str>, uber: Option<&str>) -> (r: String)
    ensures
        r@ == span_trace_id(app, x, tp, uber),
{
    let first = if app.is_some() {
        app
    } else if x.is_some() {
        x
    } else if tp.is_some() {
        tp
    } else {
        uber
    };
    match first {
        Some(s) => if s.is_empty() {
            owned("unknown")
        } else {
            owned(s)
        },
        None => owned("unknown"),
    }
}

/// The span id the tracing middleware records: `X-Span-Id`, or `unknown`.
pub fn span_id_for_span(span: Option<&str>) -> (r: String)
    ensures
        r@ == (match span {
            Some(s) => s@,
            None => "unknown"@,
        }),
{
    match span {
        Some(s) => owned(s),
        None => owned("unknown"),
    }
}

/// The trace and span ids the request log uses, from the propagation
/// headers: explicit `X-Trace-Id` / `X-Span-Id` (`unknown` for the missing
/// one), else W3C `traceparent` (`00-<trace>-<span>-<flags>`), else Jaeger
/// `uber-trace-id` (`<trace>:<span>:...`); `None` when none applies.
pub open spec fn propagated_ids(x_trace: Option<&str>, x_span: Option<&str>, tp: Option<&str>, uber: Option<&str>) -> Option<(Seq<char>, Seq<char>)> {
    if x_trace is Some || x_span is Some {
        Some(
            (
                match x_trace {
                    Some(s) => s@,
                    None => "unknown"@,
                },
                match x_span {
                    Some(s) => s@,
                    None => "unknown"@,
                },
            ),
        )
    } else if tp is Some && split_text(tp->0@, '-').len() >= 4 {
        Some((split_text(tp->0@, '-')[1], split_text(tp->0@, '-')[2]))
    } else if uber is Some && split_text(uber->0@, ':').len() >= 2 {
        Some((split_text(uber->0@, ':')[0], split_text(uber->0@, ':')[1]))
    } else {
        None
    }
}

/// The trace and span ids the request log takes from propagation headers.
pub fn trace_ids_from_headers(x_trace: Option<&str>, x_span: Option<&str>, tp: Option<&str>, uber: Option<&str>) -> (r: Option<(String, String)>)
    ensures
        match r {
            Some(p) => propagated_ids(x_trace, x_span, tp, uber) == Some((p.0@, p.1@)),
            None => propagated_ids(x_trace, x_span, tp, uber) is None,
        },
{
    if x_trace.is_some() || x_span.is_some() {
        let t = match x_trace {
            Some(s) => owned(s),
            None => owned("unknown"),
        };
        let s = match x_span {
            Some(s) => owned(s),
            None => owned("unknown"),
        };
        return Some((t, s));
    }
    if let Some(tp_s) = tp {
        let parts = split_chars(&chars_of(tp_s), '-');
        if parts.len() >= 4 {
            let ghost views = parts@.map_values(|p: Vec<char>| p@);
            assert(views[1] == parts@[1]@ && views[2] == parts@[2]@);
            return Some((string_from(&parts[1]), string_from(&parts[2])));
        }
    }
    if let Some(u) = uber {
        let parts = split_chars(&chars_of(u), ':');
        if parts.len() >= 2 {
            let ghost views = parts@.map_values(|p: Vec<char>| p@);
            assert(views[0] == parts@[0]@ && views[1] == parts@[1]@);
            return Some((string_from(&parts[0]), string_from(&parts[1])));
        }
    }
    None
}

// ── Client IP ────────────────────────────────────────────────────────────────

/// An IP address by its parts.
pub enum IpView {
    V4([u8; 4]),
    V6([u16; 8]),
}

/// `r` is an address the parser `f` gives for the text `s`.
pub open spec fn parses_to<F: Fn(&str) -> Option<IpView>>(f: F, s: Seq<char>, r: Option<IpView>) -> bool {
    exists|a: &str| #![trigger call_ensures(f, (a,), r)] a@ == s && call_ensures(f, (a,), r)
}

/// The address the parser gives for a text.
pub open spec fn parsed_by<F: Fn(&str) -> Option<IpView>>(f: F, s: Seq<char>) -> Option<IpView> {
    choose|r: Option<IpView>| parses_to(f, s, r)
}

/// A parser that accepts every text and gives one answer per text.
pub open spec fn parser_ok<F: Fn(&str) -> Option<IpView>>(f: F) -> bool {
    &&& forall|a: &str| #[trigger] call_requires(f, (a,))
    &&& forall|s: Seq<char>, r1: Option<IpView>, r2: Option<IpView>|
        #![trigger parses_to(f, s, r1), parses_to(f, s, r2)]
        parses_to(f, s, r1) && parses_to(f, s, r2) ==> r1 == r2
}

fn parse_with<F: Fn(&str) -> Option<IpView>>(f: &F, s: &str) -> (r: Option<IpView>)
    requires
        parser_ok(*f),
    ensures
        r == parsed_by(*f, s@),
{
    let r = f(s);
    assert(parses_to(*f, s@, r));
    r
}

/// A loopback address: 127.0.0.0/8, or `::1`.
pub open spec fn is_loopback(ip: IpView) -> bool {
    match ip {
        IpView::V4(o) => o@[0] == 127,
        IpView::V6(s) => s@ == seq![0u16, 0, 0, 0, 0, 0, 0, 1],
    }
}

/// A private address as the request log counts them: 10.0.0.0/8,
/// 172.16.0.0/12, 192.168.0.0/16 and fc00::/7.
pub open spec fn is_private_net(ip: IpView) -> bool {
    match ip {
        IpView::V4(o) => o@[0] == 10 || (o@[0] == 172 && 16 <= o@[1] <= 31) || (o@[0] == 192 && o@[1]
            == 168),
        IpView::V6(s) => (s@[0] & 0xfe00u16) == 0xfc00u16,
    }
}

/// A non-public address as the access logger counts them: private,
/// loopback or link-local (169.254.0.0/16) IPv4, and loopback IPv6.
pub open spec fn is_internal_net(ip: IpView) -> bool {
    match ip {
        IpView::V4(o) => o@[0] == 10 || (o@[0] == 172 && 16 <= o@[1] <= 31) || (o@[0] == 192 && o@[1]
            == 168) || o@[0] == 127 || (o@[0] == 169 && o@[1] == 254),
        IpView::V6(s) => s@ == seq![0u16, 0, 0, 0, 0, 0, 0, 1],
    }
}

fn loopback(ip: &IpView) -> (r: bool)
    ensures
        r == is_loopback(*ip),
{
    match ip {
        IpView::V4(o) => o[0] == 127,
        IpView::V6(s) => {
            let r = s[0] == 0 && s[1] == 0 && s[2] == 0 && s[3] == 0 && s[4] == 0 && s[5] == 0 && s[6]
                == 0 && s[7] == 1;
            assert(r == (s@ =~= seq![0u16, 0, 0, 0, 0, 0, 0, 1]));
            r
        },
    }
}

fn private_net(ip: &IpView) -> (r: bool)
    ensures
        r == is_private_net(*ip),
{
    match ip {
        IpView::V4(o) => o[0] == 10 || (o[0] == 172 && 16 <= o[1] && o[1] <= 31) || (o[0] == 192
            && o[1] == 168),
        IpView::V6(s) => (s[0] & 0xfe00u16) == 0xfc00u16,
    }
}

fn internal_net(ip: &IpView) -> (r: bool)
    ensures
        r == is_internal_net(*ip),
{
    match ip {
        IpView::V4(o) => o[0] == 10 || (o[0] == 172 && 16 <= o[1] && o[1] <= 31) || (o[0] == 192
            && o[1] == 168) || o[0] == 127 || (o[0] == 169 && o[1] == 254),
        IpView::V6(s) => loopback(ip),
    }
}

/// A text the request log takes for a client address: an IP that is neither
/// loopback nor private.
pub open spec fn request_public<F: Fn(&str) -> Option<IpView>>(f: F, s: Seq<char>) -> bool {
    match parsed_by(f, s) {
        Some(ip) => !is_loopback(ip) && !is_private_net(ip),
        None => false,
    }
}

/// A text the access logger takes for a client address.
pub open spec fn access_public<F: Fn(&str) -> Option<IpView>>(f: F, s: Seq<char>) -> bool {
    match parsed_by(f, s) {
        Some(ip) => !is_loopback(ip) && !is_internal_net(ip),
        None => false,
    }
}

/// The last trimmed `X-Forwarded-For` entry that passes `public`, scanning
/// from position `n` down.
pub open spec fn last_public<F: Fn(&str) -> Option<IpView>>(f: F, parts: Seq<Seq<char>>, n: int, access: bool) -> Option<Seq<char>>
    decreases n,
{
    if n <= 0 {
        None
    } else {
        let c = trim(parts[n - 1]);
        if (if access {
            access_public(f, c)
        } else {
            request_public(f, c)
        }) {
            Some(c)
        } else {
            last_public(f, parts, n - 1, access)
        }
    }
}

fn rightmost_public<F: Fn(&str) -> Option<IpView>>(xff: &str, access: bool, f: &F) -> (r: Option<String>)
    requires
        parser_ok(*f),
    ensures
        match r {
            Some(c) => last_public(*f, split_text(xff@, ','), split_text(xff@, ',').len() as int, access)
                == Some(c@),
            None => last_public(*f, split_text(xff@, ','), split_text(xff@, ',').len() as int, access)
                is None,
        },
{
    let parts = split_chars(&chars_of(xff), ',');
    let ghost views = parts@.map_values(|p: Vec<char>| p@);
    let mut n: usize = parts.len();
    while n > 0
        invariant
            n <= parts.len(),
            views == parts@.map_values(|p: Vec<char>| p@),
            views == split_text(xff@, ','),
            parser_ok(*f),
            last_public(*f, views, views.len() as int, access) == last_public(*f, views, n as int, access),
        decreases n,
    {
        let t = trim_chars(&parts[n - 1]);
        let candidate = string_from(&t);
        assert(views[n - 1] == parts@[n - 1]@);
        let ok = match parse_with(f, candidate.as_str()) {
            Some(ip) => if access {
                !loopback(&ip) && !internal_net(&ip)
            } else {
                !loopback(&ip) && !private_net(&ip)
            },
            None => false,
        };
        if ok {
            return Some(candidate);
        }
        n = n - 1;
    }
    None
}

fn is_public_text<F: Fn(&str) -> Option<IpView>>(s: &str, access: bool, f: &F) -> (r: bool)
    requires
        parser_ok(*f),
    ensures
        r == (if access {
            access_public(*f, s@)
        } else {
            request_public(*f, s@)
        }),
{
    match parse_with(f, s) {
        Some(ip) => if access {
            !loopback(&ip) && !internal_net(&ip)
        } else {
            !loopback(&ip) && !private_net(&ip)
        },
        None => false,
    }
}

/// The client address the request log records: the rightmost public entry
/// of `X-Forwarded-For`, else `X-Real-IP` (trimmed) if public, else the
/// connection's peer address, else `-`. Addresses are read by `parse_ip`.
pub fn request_client_ip<F: Fn(&str) -> Option<IpView>>(
    xff: Option<&str>,
    real_ip: Option<&str>,
    peer: Option<&str>,
    parse_ip: &F,
) -> (r: String)
    requires
        parser_ok(*parse_ip),
    ensures
        r@ == (match (match xff {
            Some(x) => last_public(*parse_ip, split_text(x@, ','), split_text(x@, ',').len() as int, false),
            None => None,
        }) {
            Some(c) => c,
            None => if real_ip is Some && request_public(*parse_ip, trim(real_ip->0@)) {
                trim(real_ip->0@)
            } else {
                match peer {
                    Some(p) => p@,
                    None => "-"@,
                }
            },
        }),
{
    if let Some(x) = xff {
        if let Some(c) = rightmost_public(x, false, parse_ip) {
            return c;
        }
    }
    if let Some(ri) = real_ip {
        let t = string_from(&trim_chars(&chars_of(ri)));
        if is_public_text(t.as_str(), false, parse_ip) {
            return t;
        }
    }
    match peer {
        Some(p) => owned(p),
        None => owned("-"),
    }
}

/// The client address the access logger records: the rightmost public entry
/// of `X-Forwarded-For`, else `X-Real-IP` if public, else `unknown`.
/// Addresses are read by `parse_ip`.
pub fn access_client_ip<F: Fn(&str) -> Option<IpView>>(xff: Option<&str>, real_ip: Option<&str>, parse_ip: &F) -> (r: String)
    requires
        parser_ok(*parse_ip),
    ensures
        r@ == (match (match xff {
            Some(x) => last_public(*parse_ip, split_text(x@, ','), split_text(x@, ',').len() as int, true),
            None => None,
        }) {
            Some(c) => c,
            None => if real_ip is Some && access_public(*parse_ip, real_ip->0@) {
                real_ip->0@
            } else {
                "unknown"@
            },
        }),
{
    if let Some(x) = xff {
        if let Some(c) = rightmost_public(x, true, parse_ip) {
            return c;
        }
    }
    if let Some(ri) = real_ip {
        if is_public_text(ri, true, parse_ip) {
            return owned(ri);
        }
    }
    owned("unknown")
}

// ── Request log lines ────────────────────────────────────────────────────────

/// The level a request's log line is written at: error for 5xx, warning for
/// 4xx, info otherwise.
pub fn request_log_level(status: u16) -> (r: EventLevel)
    ensures
        status >= 500 ==> r is Error,
        400 <= status < 500 ==> r is Warn,
        status < 400 ==> r is Info,
{
    if status >= 500 {
        EventLevel::Error
    } else if status >= 400 {
        EventLevel::Warn
    } else {
        EventLevel::Info
    }
}

/// The end-of-request text of the access log:
/// `[API-REQUEST] [END] URI: {path}, Method: {method}, Status: {status}, Addr: {addr}, Elapsed: {ms}ms`.
pub open spec fn access_line_text(path: Seq<char>, method: Seq<char>, status: u16, addr: Seq<char>, elapsed_ms: u64) -> Seq<char> {
    "[API-REQUEST] [END] URI: "@ + path + ", Method: "@ + method + ", Status: "@ + nat_text(status as nat) + ", Addr: "@
        + addr + ", Elapsed: "@ + nat_text(elapsed_ms as nat) + "ms"@
}

/// The access log line of a finished request.
pub fn access_log_line(path: &str, method: &str, status: u16, addr: &str, elapsed_ms: u64) -> (r: String)
    ensures
        r@ == access_line_text(path@, method@, status, addr@, elapsed_ms),
{
    let mut r = concat("[API-REQUEST] [END] URI: ", path);
    r.append(", Method: ");
    r.append(method);
    r.append(", Status: ");
    push_nat_text(&mut r, status as u64);
    r.append(", Addr: ");
    r.append(addr);
    r.append(", Elapsed: ");
    push_nat_text(&mut r, elapsed_ms);
    r.append("ms");
    r
}

/// The request log line: the access line after `[{trace}/{span}] `.
pub fn behavior_log_line(trace_id: &str, span_id: &str, path: &str, method: &str, status: u16, addr: &str, elapsed_ms: u64) -> (r: String)
    ensures
        r@ == "["@ + trace_id@ + "/"@ + span_id@ + "] "@ + access_line_text(path@, method@, status, addr@, elapsed_ms),
{
    let mut r = concat("[", trace_id);
    r.append("/");
    r.append(span_id);
    r.append("] ");
    let line = access_log_line(path, method, status, addr, elapsed_ms);
    r.append(line.as_str());
    r
}

} // verus!
