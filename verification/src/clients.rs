//! What the HTTP clients of USS, MCS and WPS decide: the addresses they call,
//! when a failed call is tried again, which answers they accept and how much
//! of an answer they read.
use vstd::prelude::*;
use crate::text::{chars_of, concat, int_text, nat_text, push_chars, push_nat_text, strip_char, strip_chars, string_from, trim, trim_chars, i64_text};
use crate::upload::{lossy_text, utf8_lossy};
use crate::uss::UssHttpError;
use crate::wps::WpsHttpError;

verus! {

/// Most bytes of an answer that are read.
pub const MAX_RESPONSE_SIZE: usize = 102400;

/// Most bytes of a refused answer that are kept for the error.
pub const ERR_SNIPPET_SIZE: usize = 512;

/// How many times a call is made before giving up.
pub const MAX_ATTEMPTS: u32 = 3;

/// Pause between two attempts, in milliseconds.
pub const RETRY_DELAY_MS: u64 = 700;

/// Time one attempt may take, in seconds.
pub const REQUEST_TIMEOUT_SECS: u64 = 5;

// ── Addresses ────────────────────────────────────────────────────────────────

/// `s` without its trailing `c` (`str::trim_end_matches` with one character).
pub open spec fn trim_end_char(s: Seq<char>, c: char) -> Seq<char>
    decreases s.len(),
{
    if s.len() > 0 && s.last() == c {
        trim_end_char(s.drop_last(), c)
    } else {
        s
    }
}

/// The base URL of a service: its host without trailing `/`.
pub open spec fn base_url_of(host: Seq<char>) -> Seq<char> {
    trim_end_char(host, '/')
}

/// The base path of a USS or MCS service: without `/` at either end, and
/// followed by one `/` unless nothing is left.
pub open spec fn base_path_of(base_path: Seq<char>) -> Seq<char> {
    let p = strip_char(base_path, '/');
    if p.len() == 0 {
        Seq::empty()
    } else {
        p.push('/')
    }
}

/// What is left after trimming has no trailing `c`, and trimming it again
/// changes nothing.
pub proof fn lemma_trim_end_char(s: Seq<char>, c: char)
    ensures
        trim_end_char(s, c).len() > 0 ==> trim_end_char(s, c).last() != c,
        trim_end_char(trim_end_char(s, c), c) == trim_end_char(s, c),
    decreases s.len(),
{
    if s.len() > 0 && s.last() == c {
        lemma_trim_end_char(s.drop_last(), c);
    }
}

/// Stripping `c` from both ends leaves a text that neither starts nor ends
/// with `c`.
proof fn lemma_strip_char_ends(s: Seq<char>, c: char)
    ensures
        strip_char(s, c).len() > 0 ==> strip_char(s, c)[0] != c && strip_char(s, c).last() != c,
    decreases s.len(),
{
    if s.len() > 0 && s[0] == c {
        lemma_strip_char_ends(s.drop_first(), c);
    } else if s.len() > 0 && s.last() == c {
        lemma_strip_char_ends(s.drop_last(), c);
    }
}

/// Normalising a base URL or a base path twice gives what normalising once
/// gave: the clients' addresses do not change when a configuration already
/// holds normalised values.
pub proof fn lemma_normalising_is_stable(host: Seq<char>, base_path: Seq<char>)
    ensures
        base_url_of(base_url_of(host)) == base_url_of(host),
        base_path_of(base_path_of(base_path)) == base_path_of(base_path),
{
    lemma_trim_end_char(host, '/');
    let p = strip_char(base_path, '/');
    lemma_strip_char_ends(base_path, '/');
    if p.len() > 0 {
        let q = p.push('/');
        assert(q.last() == '/');
        assert(q.drop_last() =~= p);
        assert(q[0] == p[0]);
        assert(strip_char(q, '/') == strip_char(p, '/'));
        assert(strip_char(p, '/') == p);
    } else {
        assert(base_path_of(base_path) =~= Seq::<char>::empty());
        assert(strip_char(Seq::<char>::empty(), '/') =~= Seq::<char>::empty());
    }
}

/// `v` without its trailing `c`.
pub fn trim_end_chars(v: &[char], c: char) -> (r: Vec<char>)
    ensures
        r@ == trim_end_char(v@, c),
{
    let mut j: usize = v.len();
    assert(v@.subrange(0, v.len() as int) =~= v@);
    while j > 0 && v[j - 1] == c
        invariant
            j <= v.len(),
            trim_end_char(v@, c) == trim_end_char(v@.subrange(0, j as int), c),
        decreases j,
    {
        assert(v@.subrange(0, j as int).drop_last() =~= v@.subrange(0, j - 1));
        j = j - 1;
    }
    let mut r: Vec<char> = Vec::new();
    let mut k: usize = 0;
    while k < j
        invariant
            k <= j <= v.len(),
            r@ == v@.subrange(0, k as int),
        decreases j - k,
    {
        r.push(v[k]);
        assert(v@.subrange(0, (k + 1) as int) =~= v@.subrange(0, k as int).push(v@[k as int]));
        k = k + 1;
    }
    proof {
        if j > 0 {
            assert(r@.last() == v@[j - 1]);
        }
    }
    r
}

/// The base URL of a service (`host.trim_end_matches('/')`).
pub fn service_base_url(host: &str) -> (r: String)
    ensures
        r@ == base_url_of(host@),
{
    let v = chars_of(host);
    let t = trim_end_chars(&v, '/');
    string_from(&t)
}

/// The base path of a USS or MCS service, e.g. `"/tcg-uss-ae/"` gives
/// `"tcg-uss-ae/"` and `"/"` gives `""`.
pub fn service_base_path(base_path: &str) -> (r: String)
    ensures
        r@ == base_path_of(base_path@),
{
    let v = chars_of(base_path);
    let p = strip_chars(&v, '/');
    if p.len() == 0 {
        String::new()
    } else {
        let mut r = string_from(&p);
        r.append("/");
        proof {
            reveal_strlit("/");
        }
        r
    }
}

/// The base URL of WPS: host and base path, each without trailing `/`,
/// joined by one `/`.
pub fn wps_base_url(host: &str, base_path: &str) -> (r: String)
    ensures
        r@ == trim_end_char(host@, '/') + seq!['/'] + trim_end_char(base_path@, '/'),
{
    let h = trim_end_chars(&chars_of(host), '/');
    let p = trim_end_chars(&chars_of(base_path), '/');
    let mut r = string_from(&h);
    r.append("/");
    push_chars(&mut r, &p);
    proof {
        reveal_strlit("/");
    }
    r
}

/// `"true"` or `"false"`.
pub open spec fn bool_text(b: bool) -> Seq<char> {
    if b {
        "true"@
    } else {
        "false"@
    }
}

/// The address of USS's customer lookup.
pub open spec fn customer_url_of(base_url: Seq<char>, base_path: Seq<char>, customer_name: Seq<char>, force: bool) -> Seq<char> {
    base_url + "/"@ + base_path + "customer?customerName="@ + customer_name + "&force="@ + bool_text(force)
}

/// `{base_url}/{base_path}customer?customerName={name}&force={force}`.
pub fn customer_url(base_url: &str, base_path: &str, customer_name: &str, force: bool) -> (r: String)
    ensures
        r@ == customer_url_of(base_url@, base_path@, customer_name@, force),
{
    let mut r = concat(base_url, "/");
    r.append(base_path);
    r.append("customer?customerName=");
    r.append(customer_name);
    r.append("&force=");
    if force {
        r.append("true");
    } else {
        r.append("false");
    }
    r
}

/// `{base_url}/{base_path}customer/personal-info?customerId={id}`.
pub fn personal_info_url(base_url: &str, base_path: &str, customer_id: i64) -> (r: String)
    ensures
        r@ == base_url@ + "/"@ + base_path@ + "customer/personal-info?customerId="@ + int_text(customer_id as int),
{
    let mut r = concat(base_url, "/");
    r.append(base_path);
    r.append("customer/personal-info?customerId=");
    let id = i64_text(customer_id);
    r.append(id.as_str());
    r
}

/// `{base_url}/{base_path}password/reset-generate`.
pub fn reset_generate_url(base_url: &str, base_path: &str) -> (r: String)
    ensures
        r@ == base_url@ + "/"@ + base_path@ + "password/reset-generate"@,
{
    let mut r = concat(base_url, "/");
    r.append(base_path);
    r.append("password/reset-generate");
    r
}

/// `{base_url}/{base_path}player/verifyPlayerInfo`.
pub fn verify_player_info_url(base_url: &str, base_path: &str) -> (r: String)
    ensures
        r@ == base_url@ + "/"@ + base_path@ + "player/verifyPlayerInfo"@,
{
    let mut r = concat(base_url, "/");
    r.append(base_path);
    r.append("player/verifyPlayerInfo");
    r
}

/// `{base_url}/members/reset-password-status`.
pub fn reset_password_status_url(base_url: &str) -> (r: String)
    ensures
        r@ == base_url@ + "/members/reset-password-status"@,
{
    concat(base_url, "/members/reset-password-status")
}

// ── Retries ──────────────────────────────────────────────────────────────────

/// How one attempt of a call ended.
pub enum AttemptOutcome {
    /// An accepted answer came back.
    Answered,
    /// The attempt failed (transport error, refused answer).
    Failed,
    /// The attempt took longer than `REQUEST_TIMEOUT_SECS`.
    TimedOut,
}

/// What the client does after an attempt.
pub enum RetryStep {
    /// Hand the answer to the caller.
    Deliver,
    /// Wait `RETRY_DELAY_MS`, then make the next attempt.
    RetryAfterDelay,
    /// Stop and report the last failure.
    GiveUp,
}

/// The step after attempt number `attempt` (counted from 1): an answer is
/// delivered at once; a failure is tried again after the delay while fewer
/// than `MAX_ATTEMPTS` attempts were made, and ends the call after that.
pub fn next_retry_step(attempt: u32, outcome: AttemptOutcome) -> (r: RetryStep)
    requires
        1 <= attempt <= MAX_ATTEMPTS,
    ensures
        outcome is Answered ==> r is Deliver,
        !(outcome is Answered) && attempt < MAX_ATTEMPTS ==> r is RetryAfterDelay,
        !(outcome is Answered) && attempt == MAX_ATTEMPTS ==> r is GiveUp,
{
    match outcome {
        AttemptOutcome::Answered => RetryStep::Deliver,
        _ => {
            if attempt < MAX_ATTEMPTS {
                RetryStep::RetryAfterDelay
            } else {
                RetryStep::GiveUp
            }
        },
    }
}

/// The context added to the last failure when all attempts failed, e.g.
/// `all 3 USS attempts failed`.
pub fn attempts_exhausted_message(service: &str) -> (r: String)
    ensures
        r@ == "all "@ + nat_text(MAX_ATTEMPTS as nat) + " "@ + service@ + " attempts failed"@,
{
    let mut r = String::new();
    r.append("all ");
    push_nat_text(&mut r, MAX_ATTEMPTS as u64);
    r.append(" ");
    r.append(service);
    r.append(" attempts failed");
    r
}

// ── Answers ──────────────────────────────────────────────────────────────────

/// What is done with an answer, from its status and announced length.
pub enum ResponseCheck {
    /// Read the body, up to `MAX_RESPONSE_SIZE` bytes.
    ReadBody,
    /// Refuse it: the status is not 200.
    BadStatus(u16),
    /// Refuse it: the announced length is over `MAX_RESPONSE_SIZE`.
    TooLarge(u64),
}

/// Only status 200 is accepted, and only when the announced length, if any,
/// is at most `MAX_RESPONSE_SIZE`.
pub fn check_response(status: u16, content_length: Option<u64>) -> (r: ResponseCheck)
    ensures
        status != 200 ==> r == ResponseCheck::BadStatus(status),
        status == 200 ==> r == (match content_length {
            Some(cl) => if cl > MAX_RESPONSE_SIZE { ResponseCheck::TooLarge(cl) } else { ResponseCheck::ReadBody },
            None => ResponseCheck::ReadBody,
        }),
{
    if status != 200 {
        return ResponseCheck::BadStatus(status);
    }
    match content_length {
        Some(cl) => {
            if cl > MAX_RESPONSE_SIZE as u64 {
                ResponseCheck::TooLarge(cl)
            } else {
                ResponseCheck::ReadBody
            }
        },
        None => ResponseCheck::ReadBody,
    }
}

/// The error for an answer announced too long, e.g.
/// `USS response too large: content-length=200000, max=102400`.
pub fn too_large_message(service: &str, content_length: u64) -> (r: String)
    ensures
        r@ == service@ + " response too large: content-length="@ + nat_text(content_length as nat)
            + ", max="@ + nat_text(MAX_RESPONSE_SIZE as nat),
{
    let mut r = String::new();
    r.append(service);
    r.append(" response too large: content-length=");
    push_nat_text(&mut r, content_length);
    r.append(", max=");
    push_nat_text(&mut r, MAX_RESPONSE_SIZE as u64);
    r
}

/// The error of a non-200 USS answer: the trimmed text of the first bytes of
/// its body.
pub fn uss_http_error(status: u16, snippet: &[u8]) -> (r: UssHttpError)
    ensures
        r.status == status,
        r.body@ == trim(utf8_lossy(snippet@)),
{
    let text = lossy_text(snippet);
    let t = trim_chars(&chars_of(text.as_str()));
    UssHttpError { body: string_from(&t), status }
}

/// The error of a non-200 WPS answer.
pub fn wps_http_error(status: u16) -> (r: WpsHttpError)
    ensures
        r.status == status,
        r.body@ == "unexpected status code: "@ + nat_text(status as nat),
{
    let mut body = String::new();
    body.append("unexpected status code: ");
    push_nat_text(&mut body, status as u64);
    WpsHttpError { body, status }
}

/// The error of a non-200 MCS answer: `status {status}: {trimmed text of the
/// first bytes of the body}`.
pub fn mcs_status_message(status: u16, snippet: &[u8]) -> (r: String)
    ensures
        r@ == "status "@ + nat_text(status as nat) + ": "@ + trim(utf8_lossy(snippet@)),
{
    let text = lossy_text(snippet);
    let t = trim_chars(&chars_of(text.as_str()));
    let mut r = String::new();
    r.append("status ");
    push_nat_text(&mut r, status as u64);
    r.append(": ");
    push_chars(&mut r, &t);
    r
}

// ── Reading a body up to a limit ─────────────────────────────────────────────

/// The chunks' bytes one after the other.
pub open spec fn joined(chunks: Seq<Seq<u8>>) -> Seq<u8>
    decreases chunks.len(),
{
    if chunks.len() == 0 {
        Seq::empty()
    } else {
        joined(chunks.drop_last()) + chunks.last()
    }
}

/// The first `limit` bytes of `s`, or all of it when it is shorter.
pub open spec fn prefix_upto(s: Seq<u8>, limit: nat) -> Seq<u8> {
    if s.len() <= limit {
        s
    } else {
        s.take(limit as int)
    }
}

/// `buf` after a chunk came in: the chunk's bytes are added while fewer
/// than `limit` bytes are held.
pub open spec fn capped_append(buf: Seq<u8>, chunk: Seq<u8>, limit: nat) -> Seq<u8> {
    if buf.len() >= limit {
        buf
    } else {
        buf + prefix_upto(chunk, (limit - buf.len()) as nat)
    }
}

/// What is held after the chunks came in one by one.
pub open spec fn capped_read(chunks: Seq<Seq<u8>>, limit: nat) -> Seq<u8>
    decreases chunks.len(),
{
    if chunks.len() == 0 {
        Seq::empty()
    } else {
        capped_append(capped_read(chunks.drop_last(), limit), chunks.last(), limit)
    }
}

/// Adds one chunk to what was read; says whether more may be read.
pub fn append_capped(buf: &mut Vec<u8>, chunk: &[u8], limit: usize) -> (more: bool)
    ensures
        final(buf)@ == capped_append(old(buf)@, chunk@, limit as nat),
        more == (final(buf)@.len() < limit),
{
    if buf.len() >= limit {
        return false;
    }
    let remaining = limit - buf.len();
    let take = if chunk.len() < remaining { chunk.len() } else { remaining };
    let ghost start = buf@;
    let mut i: usize = 0;
    while i < take
        invariant
            i <= take <= chunk.len(),
            buf@ == start + chunk@.take(i as int),
        decreases take - i,
    {
        buf.push(chunk[i]);
        assert(chunk@.take((i + 1) as int) =~= chunk@.take(i as int).push(chunk@[i as int]));
        i = i + 1;
    }
    assert(chunk@.take(chunk.len() as int) =~= chunk@);
    buf.len() < limit
}

/// Reading chunk by chunk with `append_capped` keeps exactly the first
/// `limit` bytes of the whole body (all of it when it is shorter).
pub proof fn lemma_capped_read(chunks: Seq<Seq<u8>>, limit: nat)
    ensures
        capped_read(chunks, limit) == prefix_upto(joined(chunks), limit),
    decreases chunks.len(),
{
    if chunks.len() > 0 {
        let init = chunks.drop_last();
        let c = chunks.last();
        lemma_capped_read(init, limit);
        let a = joined(init);
        assert(joined(chunks) == a + c);
        if a.len() >= limit {
            assert((a + c).take(limit as int) =~= a.take(limit as int));
        } else if a.len() + c.len() <= limit {
            assert(prefix_upto(c, (limit - a.len()) as nat) == c);
        } else {
            assert((a + c).take(limit as int) =~= a + c.take(limit - a.len()));
        }
    }
}

} // verus!
