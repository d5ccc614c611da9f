//! File uploads: the multipart boundary, the `file` part of a multipart
//! body, and the checks an upload passes before it is stored.
use vstd::prelude::*;
use vstd::string::StringSliceAdditionalSpecFns;
use crate::text::{i64_text, int_text, str_eq, 
    chars_contains, chars_of, chars_starts_with, concat, contains, owned, split_chars, split_text,
    starts_with, string_from, strip_char, strip_chars, to_lowercase, trim, trim_chars,
    unicode_lowercase,
};

verus! {

// ── Bytes ────────────────────────────────────────────────────────────────────

/// `h` holds `n` at position `i`.
pub open spec fn bytes_at(h: Seq<u8>, n: Seq<u8>, i: int) -> bool {
    0 <= i && i + n.len() <= h.len() && h.subrange(i, i + n.len()) == n
}

/// The first position of `n` in `h`.
#[verifier::opaque]
pub open spec fn find_bytes_spec(h: Seq<u8>, n: Seq<u8>) -> Option<int> {
    if exists|i: int| bytes_at(h, n, i) {
        Some(choose|i: int| bytes_at(h, n, i) && forall|j: int| 0 <= j < i ==> !bytes_at(h, n, j))
    } else {
        None
    }
}

proof fn lemma_find_first(h: Seq<u8>, n: Seq<u8>, i: int)
    requires
        bytes_at(h, n, i),
        forall|j: int| 0 <= j < i ==> !bytes_at(h, n, j),
    ensures
        find_bytes_spec(h, n) == Some(i),
{
    reveal(find_bytes_spec);
    let k = choose|k: int| bytes_at(h, n, k) && forall|j: int| 0 <= j < k ==> !bytes_at(h, n, j);
    assert(bytes_at(h, n, k) && forall|j: int| 0 <= j < k ==> !bytes_at(h, n, j));
    if k < i {
    } else if k > i {
    }
}

/// The first position of `needle` in `haystack`.
pub fn find_bytes(haystack: &[u8], needle: &[u8]) -> (r: Option<usize>)
    requires
        needle@.len() > 0,
    ensures
        match r {
            Some(i) => find_bytes_spec(haystack@, needle@) == Some(i as int),
            None => find_bytes_spec(haystack@, needle@) is None,
        },
{
    reveal(find_bytes_spec);
    if needle.len() > haystack.len() {
        assert(!exists|i: int| bytes_at(haystack@, needle@, i));
        return None;
    }
    let mut i: usize = 0;
    while i <= haystack.len() - needle.len()
        invariant
            needle@.len() > 0,
            needle.len() <= haystack.len(),
            i <= haystack.len(),
            forall|j: int| 0 <= j < i ==> !bytes_at(haystack@, needle@, j),
        decreases haystack.len() - i,
    {
        let mut k: usize = 0;
        let mut same = true;
        while k < needle.len()
            invariant
                i + needle.len() <= haystack.len(),
                k <= needle.len(),
                same == forall|m: int| 0 <= m < k ==> haystack@[i + m] == needle@[m],
            decreases needle.len() - k,
        {
            if haystack[i + k] != needle[k] {
                same = false;
            }
            k = k + 1;
        }
        if same {
            assert(haystack@.subrange(i as int, i + needle.len()) =~= needle@);
            proof {
                lemma_find_first(haystack@, needle@, i as int);
            }
            return Some(i);
        } else {
            assert(!bytes_at(haystack@, needle@, i as int)) by {
                let m = choose|m: int| 0 <= m < needle.len() && haystack@[i + m] != needle@[m];
                assert(haystack@.subrange(i as int, i + needle.len())[m] == haystack@[i + m]);
            }
        }
        i = i + 1;
    }
    assert(!exists|j: int| bytes_at(haystack@, needle@, j));
    None
}

// ── The boundary ─────────────────────────────────────────────────────────────

/// The first trimmed `;`-piece of `s` whose lower-case form starts with
/// `key`, and the text after the key in it.
pub open spec fn param_after(parts: Seq<Seq<char>>, key: Seq<char>) -> Option<Seq<char>>
    decreases parts.len(),
{
    if parts.len() == 0 {
        None
    } else {
        let p = trim(parts[0]);
        if starts_with(unicode_lowercase(p), key) && key.len() <= p.len() {
            Some(p.subrange(key.len() as int, p.len() as int))
        } else {
            param_after(parts.drop_first(), key)
        }
    }
}

/// A parameter's value: the text after `key` in the first `;`-separated
/// parameter that starts with `key` ignoring case, without surrounding `"`.
/// (Only ASCII letters lower-case to the key's letters, so the text after
/// the key starts after as many characters as the key has.)
pub open spec fn header_param(s: Seq<char>, key: Seq<char>) -> Option<Seq<char>> {
    match param_after(split_text(s, ';'), key) {
        Some(v) => Some(strip_char(v, '"')),
        None => None,
    }
}

fn find_param(s: &str, key: &str) -> (r: Option<String>)
    ensures
        match r {
            Some(v) => header_param(s@, key@) == Some(v@),
            None => header_param(s@, key@) is None,
        },
{
    let parts = split_chars(&chars_of(s), ';');
    let ghost views = parts@.map_values(|p: Vec<char>| p@);
    let k = chars_of(key);
    let mut i: usize = 0;
    assert(views.subrange(0, views.len() as int) =~= views);
    while i < parts.len()
        invariant
            i <= parts.len(),
            views == parts@.map_values(|p: Vec<char>| p@),
            views == split_text(s@, ';'),
            k@ == key@,
            param_after(views, key@) == param_after(views.subrange(i as int, views.len() as int), key@),
        decreases parts.len() - i,
    {
        let ghost rest = views.subrange(i as int, views.len() as int);
        assert(rest.drop_first() =~= views.subrange(i + 1, views.len() as int));
        assert(rest[0] == parts@[i as int]@);
        let t = trim_chars(&parts[i]);
        let ts = string_from(&t);
        let low = chars_of(to_lowercase(ts.as_str()).as_str());
        if chars_starts_with(&low, &k) && k.len() <= t.len() {
            let mut v: Vec<char> = Vec::new();
            let mut j: usize = k.len();
            while j < t.len()
                invariant
                    k.len() <= j <= t.len(),
                    v@ == t@.subrange(k.len() as int, j as int),
                decreases t.len() - j,
            {
                v.push(t[j]);
                assert(t@.subrange(k.len() as int, (j + 1) as int) =~= t@.subrange(k.len() as int, j as int).push(t@[j as int]));
                j = j + 1;
            }
            let stripped = strip_chars(&v, '"');
            return Some(string_from(&stripped));
        }
        i = i + 1;
    }
    None
}

/// The boundary of a `multipart/form-data` content type.
pub fn parse_boundary(content_type: &str) -> (r: Option<String>)
    ensures
        match r {
            Some(b) => header_param(content_type@, "boundary="@) == Some(b@),
            None => header_param(content_type@, "boundary="@) is None,
        },
{
    find_param(content_type, "boundary=")
}

// ── The file part ────────────────────────────────────────────────────────────

/// What `String::from_utf8_lossy` makes of bytes (invalid sequences become
/// U+FFFD).
pub uninterp spec fn utf8_lossy(b: Seq<u8>) -> Seq<char>;

/// `String::from_utf8_lossy`.
#[verifier::external_body]
pub(crate) fn lossy_text(b: &[u8]) -> (r: String)
    ensures
        r@ == utf8_lossy(b@),
{
    String::from_utf8_lossy(b).into_owned()
}

/// The blank line that ends a part's headers.
pub open spec fn header_end() -> Seq<u8> {
    seq![13u8, 10u8, 13u8, 10u8]
}

/// Bytes without one trailing CRLF.
pub open spec fn without_crlf(b: Seq<u8>) -> Seq<u8> {
    if b.len() >= 2 && b[b.len() - 2] == 13 && b[b.len() - 1] == 10 {
        b.subrange(0, b.len() - 2)
    } else {
        b
    }
}

/// A part's file name: its `filename=` parameter, else `upload`.
pub open spec fn part_filename(headers: Seq<char>) -> Seq<char> {
    match header_param(headers, "filename="@) {
        Some(f) => f,
        None => "upload"@,
    }
}

/// One step of the scan from `start`: the answer, or where to go on.
pub enum ScanStep {
    Done(Option<(Seq<char>, Seq<u8>)>),
    Next(int),
}

/// One step of the scan for the `file` part: find the next delimiter; stop
/// at the closing one (`--` right after it) or when none is left; else take
/// the part up to the following delimiter (or the end) and answer with it
/// if it has a header block naming it `file` (ignoring case), else go on
/// after it.
#[verifier::opaque]
pub open spec fn scan_step(body: Seq<u8>, delim: Seq<u8>, start: int) -> ScanStep {
    match find_bytes_spec(body.subrange(start, body.len() as int), delim) {
        None => ScanStep::Done(None),
        Some(i) => {
            let ps = start + i + delim.len();
            if ps + 2 <= body.len() && body[ps] == 45 && body[ps + 1] == 45 {
                ScanStep::Done(None)
            } else {
                let nd = match find_bytes_spec(body.subrange(ps, body.len() as int), delim) {
                    Some(j) => ps + j,
                    None => body.len() as int,
                };
                let part = body.subrange(ps, nd);
                match find_bytes_spec(part, header_end()) {
                    None => ScanStep::Next(nd),
                    Some(sp) => {
                        let headers = utf8_lossy(part.subrange(0, sp));
                        if !contains(unicode_lowercase(headers), "name=\"file\""@) {
                            ScanStep::Next(nd)
                        } else {
                            ScanStep::Done(
                                Some(
                                    (
                                        part_filename(headers),
                                        without_crlf(part.subrange(sp + 4, part.len() as int)),
                                    ),
                                ),
                            )
                        }
                    },
                }
            }
        },
    }
}

/// The first part named `file` at or after `start`: its file name and its
/// bytes, scanning step by step.
pub open spec fn multipart_scan(body: Seq<u8>, delim: Seq<u8>, start: int) -> Option<(Seq<char>, Seq<u8>)>
    decreases body.len() - start,
{
    if delim.len() == 0 || start < 0 || start > body.len() {
        None
    } else {
        match scan_step(body, delim, start) {
            ScanStep::Done(r) => r,
            ScanStep::Next(nd) => if start < nd <= body.len() {
                multipart_scan(body, delim, nd)
            } else {
                None
            },
        }
    }
}

proof fn lemma_find_bounds(h: Seq<u8>, n: Seq<u8>)
    ensures
        match find_bytes_spec(h, n) {
            Some(i) => bytes_at(h, n, i),
            None => true,
        },
{
    reveal(find_bytes_spec);
    if exists|i: int| bytes_at(h, n, i) {
        let w = choose|i: int| bytes_at(h, n, i);
        assert(bytes_at(h, n, w));
        lemma_least_exists(h, n, w);
    }
}

proof fn lemma_least_exists(h: Seq<u8>, n: Seq<u8>, w: int)
    requires
        bytes_at(h, n, w),
    ensures
        exists|k: int| bytes_at(h, n, k) && forall|j: int| 0 <= j < k ==> !bytes_at(h, n, j),
    decreases w,
{
    if exists|j: int| 0 <= j < w && bytes_at(h, n, j) {
        let j = choose|j: int| 0 <= j < w && bytes_at(h, n, j);
        lemma_least_exists(h, n, j);
    }
}

/// The file part of a multipart body.
pub struct MultipartField {
    pub filename: String,
    pub data: Vec<u8>,
}

/// The delimiter of a boundary: `--` and the boundary's bytes.
pub open spec fn boundary_delim(boundary: &str) -> Seq<u8> {
    seq![45u8, 45u8] + boundary.spec_bytes()
}

/// The first part named `file` of a multipart body.
pub fn parse_multipart_file(body: &[u8], boundary: &str) -> (r: Option<MultipartField>)
    ensures
        match r {
            Some(f) => multipart_scan(body@, boundary_delim(boundary), 0) == Some((f.filename@, f.data@)),
            None => multipart_scan(body@, boundary_delim(boundary), 0) is None,
        },
{
    let mut delim: Vec<u8> = Vec::new();
    delim.push(45u8);
    delim.push(45u8);
    let bb = boundary.as_bytes();
    let mut m: usize = 0;
    while m < bb.len()
        invariant
            m <= bb.len(),
            delim@ == seq![45u8, 45u8] + bb@.subrange(0, m as int),
        decreases bb.len() - m,
    {
        delim.push(bb[m]);
        assert(bb@.subrange(0, (m + 1) as int) =~= bb@.subrange(0, m as int).push(bb@[m as int]));
        m = m + 1;
    }
    assert(bb@.subrange(0, bb.len() as int) =~= bb@);
    assert(delim@ =~= boundary_delim(boundary));
    let sep: [u8; 4] = [13u8, 10u8, 13u8, 10u8];
    assert(sep@ =~= header_end());
    let ghost d = delim@;
    let mut start: usize = 0;
    loop
        invariant
            start <= body.len(),
            d == delim@,
            d.len() >= 2,
            sep@ == header_end(),
            multipart_scan(body@, d, 0) == multipart_scan(body@, d, start as int),
            d == boundary_delim(boundary),
        decreases body.len() - start,
    {
        match step(body, &delim, &sep, start) {
            StepOutcome::Found(f) => {
                assert(multipart_scan(body@, d, start as int) == Some((f.filename@, f.data@)));
                return Some(f);
            },
            StepOutcome::Missing => {
                assert(multipart_scan(body@, d, start as int) is None);
                return None;
            },
            StepOutcome::Next(nd) => {
                start = nd;
            },
        }
    }
}

enum StepOutcome {
    Found(MultipartField),
    Missing,
    Next(usize),
}

#[verifier::rlimit(40)]
fn step(body: &[u8], delim: &Vec<u8>, sep: &[u8; 4], start: usize) -> (r: StepOutcome)
    requires
        start <= body.len(),
        delim@.len() >= 2,
        sep@ == header_end(),
    ensures
        match r {
            StepOutcome::Found(f) => scan_step(body@, delim@, start as int) == ScanStep::Done(
                Some((f.filename@, f.data@)),
            ),
            StepOutcome::Missing => scan_step(body@, delim@, start as int) == ScanStep::Done(None),
            StepOutcome::Next(nd) => start < nd <= body.len() && scan_step(body@, delim@, start as int)
                == ScanStep::Next(nd as int),
        },
{
    reveal(scan_step);
    let ghost d = delim@;
    let rest = slice_from(body, start);
    proof {
        lemma_find_bounds(body@.subrange(start as int, body.len() as int), d);
    }
    let i = match find_bytes(rest, delim) {
        Some(i) => i,
        None => {
            return StepOutcome::Missing;
        },
    };
    let ps = start + i + delim.len();
    if body.len() >= 2 && ps <= body.len() - 2 && body[ps] == 45u8 && body[ps + 1] == 45u8 {
        return StepOutcome::Missing;
    }
    let after = slice_from(body, ps);
    proof {
        lemma_find_bounds(body@.subrange(ps as int, body.len() as int), d);
    }
    let nd = match find_bytes(after, delim) {
        Some(j) => ps + j,
        None => body.len(),
    };
    let part = slice_range(body, ps, nd);
    proof {
        lemma_find_bounds(part@, header_end());
    }
    match find_bytes(part, sep) {
        None => StepOutcome::Next(nd),
        Some(sp) => {
            let headers = lossy_text(slice_range(part, 0, sp));
            let low = chars_of(to_lowercase(headers.as_str()).as_str());
            let name_file = chars_of("name=\"file\"");
            if !chars_contains(&low, &name_file) {
                StepOutcome::Next(nd)
            } else {
                let filename = match find_param(headers.as_str(), "filename=") {
                    Some(f) => f,
                    None => owned("upload"),
                };
                let fb = slice_range(part, sp + 4, part.len());
                let data_end = if fb.len() >= 2 && fb[fb.len() - 2] == 13u8 && fb[fb.len() - 1] == 10u8 {
                    fb.len() - 2
                } else {
                    fb.len()
                };
                let data = copy_bytes(slice_range(fb, 0, data_end));
                assert(data@ =~= without_crlf(fb@));
                StepOutcome::Found(MultipartField { filename, data })
            }
        },
    }
}

fn slice_from(b: &[u8], from: usize) -> (r: &[u8])
    requires
        from <= b.len(),
    ensures
        r@ == b@.subrange(from as int, b.len() as int),
{
    slice_range(b, from, b.len())
}

/// `b[from..to]`.
fn slice_range(b: &[u8], from: usize, to: usize) -> (r: &[u8])
    requires
        from <= to <= b.len(),
    ensures
        r@ == b@.subrange(from as int, to as int),
{
    &b[from..to]
}

fn copy_bytes(b: &[u8]) -> (r: Vec<u8>)
    ensures
        r@ == b@,
{
    let mut r: Vec<u8> = Vec::new();
    let mut i: usize = 0;
    while i < b.len()
        invariant
            i <= b.len(),
            r@ == b@.subrange(0, i as int),
        decreases b.len() - i,
    {
        r.push(b[i]);
        assert(b@.subrange(0, (i + 1) as int) =~= b@.subrange(0, i as int).push(b@[i as int]));
        i = i + 1;
    }
    assert(b@.subrange(0, b.len() as int) =~= b@);
    r
}

// ── Upload checks ────────────────────────────────────────────────────────────

/// The largest upload accepted, in bytes (50 MiB).
pub const MAX_UPLOAD_SIZE: usize = 52428800;

/// Why an upload is refused.
pub enum UploadError {
    MissingBoundary,
    ReadFailed,
    TooLarge,
    FileRequired,
    TypeNotAllowed,
    SaveFailed,
}

impl UploadError {
    /// The HTTP status of the refusal.
    pub fn status(&self) -> (r: u16)
        ensures
            r == (match *self {
                UploadError::ReadFailed | UploadError::SaveFailed => 500u16,
                _ => 400u16,
            }),
    {
        match self {
            UploadError::ReadFailed | UploadError::SaveFailed => 500,
            _ => 400,
        }
    }

    /// The message of the refusal.
    pub fn message(&self) -> (r: &'static str)
        ensures
            r@ == (match *self {
                UploadError::MissingBoundary => "missing multipart boundary"@,
                UploadError::ReadFailed => "failed to read body"@,
                UploadError::TooLarge => "file size exceeds limit"@,
                UploadError::FileRequired => "file is required"@,
                UploadError::TypeNotAllowed => "file type not allowed"@,
                UploadError::SaveFailed => "failed to save file"@,
            }),
    {
        match self {
            UploadError::MissingBoundary => "missing multipart boundary",
            UploadError::ReadFailed => "failed to read body",
            UploadError::TooLarge => "file size exceeds limit",
            UploadError::FileRequired => "file is required",
            UploadError::TypeNotAllowed => "file type not allowed",
            UploadError::SaveFailed => "failed to save file",
        }
    }
}

/// The boundary of an upload's content type, or why there is none.
pub fn upload_boundary(content_type: Option<&str>) -> (r: Result<String, UploadError>)
    ensures
        match r {
            Ok(b) => content_type is Some && header_param(content_type->0@, "boundary="@) == Some(b@),
            Err(e) => e == UploadError::MissingBoundary && (content_type is None || header_param(
                content_type->0@,
                "boundary="@,
            ) is None),
        },
{
    match content_type {
        None => Err(UploadError::MissingBoundary),
        Some(ct) => match parse_boundary(ct) {
            Some(b) => Ok(b),
            None => Err(UploadError::MissingBoundary),
        },
    }
}

/// What `Path::extension` gives for a file name (the text after its last
/// dot, when the name has one that does not start it).
pub uninterp spec fn path_extension(s: Seq<char>) -> Option<Seq<char>>;

/// `Path::extension`, as text.
#[verifier::external_body]
fn file_extension(name: &str) -> (r: Option<String>)
    ensures
        match r {
            Some(e) => path_extension(name@) == Some(e@),
            None => path_extension(name@) is None,
        },
{
    std::path::Path::new(name).extension().and_then(|e| e.to_str()).map(|e| e.to_string())
}

/// A file's extension as uploads compare it: a dot and the lower-cased
/// extension, or empty.
pub open spec fn upload_ext(filename: Seq<char>) -> Seq<char> {
    match path_extension(filename) {
        Some(e) => seq!['.'] + unicode_lowercase(e),
        None => Seq::empty(),
    }
}

/// A file's extension as uploads compare it.
pub fn upload_extension(filename: &str) -> (r: String)
    ensures
        r@ == upload_ext(filename@),
{
    match file_extension(filename) {
        Some(e) => {
            let low = to_lowercase(e.as_str());
            let r = concat(".", low.as_str());
            proof {
                reveal_strlit(".");
            }
            r
        },
        None => String::new(),
    }
}

/// Whether `ext` is one of `allowed`.
pub open spec fn ext_listed(allowed: Seq<&str>, ext: Seq<char>) -> bool {
    exists|i: int| 0 <= i < allowed.len() && allowed[i]@ == ext
}

/// The extensions the second upload endpoint accepts.
pub fn secure_upload_extensions() -> (r: Vec<&'static str>)
    ensures
        r@.len() == 4,
        r@[0]@ == ".jpg"@,
        r@[1]@ == ".png"@,
        r@[2]@ == ".pdf"@,
        r@[3]@ == ".xlsx"@,
{
    vec![".jpg", ".png", ".pdf", ".xlsx"]
}

/// The file name of the `file` part the scan finds.
pub open spec fn scanned_filename(body: Seq<u8>, delim: Seq<u8>) -> Seq<char> {
    match multipart_scan(body, delim, 0) {
        Some(p) => p.0,
        None => Seq::empty(),
    }
}

/// An accepted upload: the file part and its extension.
pub struct AcceptedUpload {
    pub field: MultipartField,
    pub ext: String,
}

/// Checks an upload's body: not over the size limit, holding a `file` part,
/// and, when an allow list is given, with an allowed extension.
pub fn accept_upload(body: &[u8], boundary: &str, allowed_exts: Option<&Vec<&str>>) -> (r: Result<AcceptedUpload, UploadError>)
    ensures
        body@.len() > MAX_UPLOAD_SIZE ==> r == Err::<AcceptedUpload, UploadError>(UploadError::TooLarge),
        body@.len() <= MAX_UPLOAD_SIZE && multipart_scan(body@, boundary_delim(boundary), 0) is None
            ==> r == Err::<AcceptedUpload, UploadError>(UploadError::FileRequired),
        body@.len() <= MAX_UPLOAD_SIZE && multipart_scan(body@, boundary_delim(boundary), 0) is Some
            ==> match r {
            Ok(u) => multipart_scan(body@, boundary_delim(boundary), 0) == Some(
                (u.field.filename@, u.field.data@),
            ) && u.ext@ == upload_ext(u.field.filename@) && (allowed_exts matches Some(a) ==> ext_listed(
                a@,
                u.ext@,
            )),
            Err(e) => e == UploadError::TypeNotAllowed && (allowed_exts matches Some(a) && !ext_listed(
                a@,
                upload_ext(scanned_filename(body@, boundary_delim(boundary))),
            )),
        },
{
    if body.len() > MAX_UPLOAD_SIZE {
        return Err(UploadError::TooLarge);
    }
    let field = match parse_multipart_file(body, boundary) {
        Some(f) => f,
        None => {
            return Err(UploadError::FileRequired);
        },
    };
    let ext = upload_extension(field.filename.as_str());
    if let Some(allowed) = allowed_exts {
        let mut i: usize = 0;
        let mut found = false;
        while i < allowed.len()
            invariant
                i <= allowed.len(),
                found == exists|k: int| 0 <= k < i && allowed@[k]@ == ext@,
            decreases allowed.len() - i,
        {
            if str_eq(allowed[i], ext.as_str()) {
                found = true;
            }
            i = i + 1;
        }
        if !found {
            return Err(UploadError::TypeNotAllowed);
        }
    }
    Ok(AcceptedUpload { field, ext })
}

/// The name an upload is stored under: `<nanos><ext>` for the endpoint with
/// an allow list, `<secs>_<filename>` for the other.
pub fn upload_save_name(secure: bool, ts_nanos: i64, ts_secs: i64, ext: &str, filename: &str) -> (r: String)
    ensures
        secure ==> r@ == int_text(ts_nanos as int) + ext@,
        !secure ==> r@ == int_text(ts_secs as int) + "_"@ + filename@,
{
    if secure {
        let mut r = i64_text(ts_nanos);
        r.append(ext);
        r
    } else {
        let mut r = i64_text(ts_secs);
        r.append("_");
        r.append(filename);
        r
    }
}

/// Where an upload is stored: `./uploads/<name>`.
pub fn upload_save_path(name: &str) -> (r: String)
    ensures
        r@ == "./uploads/"@ + name@,
{
    concat("./uploads/", name)
}

} // verus!
