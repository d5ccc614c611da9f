//! The shape of log lines: the service stamp, the level labels and the text
//! line `[time] [service] [LEVEL] [file:line] - message | key=value, ...`.
use vstd::prelude::*;
use crate::text::{concat, nat_text, owned, push_nat_text, string_from};

verus! {

/// The service name used when none was configured.
pub const DEFAULT_SERVICE_NAME: &'static str = "ucs-fe";

/// The service name stamped on log lines: the configured one, else `ucs-fe`.
pub fn service_name<'a>(configured: Option<&'a str>) -> (r: &'a str)
    ensures
        r@ == (match configured {
            Some(s) => s@,
            None => DEFAULT_SERVICE_NAME@,
        }),
{
    match configured {
        Some(s) => s,
        None => DEFAULT_SERVICE_NAME,
    }
}

/// The level of a log event.
pub enum EventLevel {
    Error,
    Warn,
    Info,
    Debug,
    Trace,
}

/// The level as the text line shows it, padded to five characters.
pub open spec fn text_level_label(l: EventLevel) -> Seq<char> {
    match l {
        EventLevel::Error => "ERROR"@,
        EventLevel::Warn => "WARN "@,
        EventLevel::Info => "INFO "@,
        EventLevel::Debug => "DEBUG"@,
        EventLevel::Trace => "TRACE"@,
    }
}

/// The level as a JSON line names it.
pub open spec fn json_level_label(l: EventLevel) -> Seq<char> {
    match l {
        EventLevel::Error => "ERROR"@,
        EventLevel::Warn => "WARN"@,
        EventLevel::Info => "INFO"@,
        EventLevel::Debug => "DEBUG"@,
        EventLevel::Trace => "TRACE"@,
    }
}

/// The level label of the text line.
pub fn text_level(l: &EventLevel) -> (r: &'static str)
    ensures
        r@ == text_level_label(*l),
{
    match l {
        EventLevel::Error => "ERROR",
        EventLevel::Warn => "WARN ",
        EventLevel::Info => "INFO ",
        EventLevel::Debug => "DEBUG",
        EventLevel::Trace => "TRACE",
    }
}

/// The level label of a JSON line.
pub fn json_level(l: &EventLevel) -> (r: &'static str)
    ensures
        r@ == json_level_label(*l),
{
    match l {
        EventLevel::Error => "ERROR",
        EventLevel::Warn => "WARN",
        EventLevel::Info => "INFO",
        EventLevel::Debug => "DEBUG",
        EventLevel::Trace => "TRACE",
    }
}

/// The last `/`-separated part of a path: all of it when it holds no `/`.
pub open spec fn base_name(path: Seq<char>) -> Seq<char>
    decreases path.len(),
{
    if path.len() == 0 {
        path
    } else if path.last() == '/' {
        Seq::empty()
    } else {
        base_name(path.drop_last()).push(path.last())
    }
}

/// The file name of a source path, as the text line shows it.
pub fn base_file_name(path: &str) -> (r: String)
    ensures
        r@ == base_name(path@),
{
    let v = crate::text::chars_of(path);
    let mut i: usize = v.len();
    while i > 0 && v[i - 1] != '/'
        invariant
            i <= v.len(),
            forall|k: int| i <= k < v.len() ==> v@[k] != '/',
        decreases i,
    {
        i = i - 1;
    }
    let mut r: Vec<char> = Vec::new();
    let mut k: usize = i;
    while k < v.len()
        invariant
            i <= k <= v.len(),
            r@ == v@.subrange(i as int, k as int),
        decreases v.len() - k,
    {
        r.push(v[k]);
        assert(v@.subrange(i as int, (k + 1) as int) =~= v@.subrange(i as int, k as int).push(v@[k as int]));
        k = k + 1;
    }
    proof {
        lemma_base_name_after(v@, i as int);
    }
    string_from(&r)
}

/// When no `/` follows position `i` and `i` is 0 or follows a `/`, the base
/// name is what follows `i`.
proof fn lemma_base_name_after(s: Seq<char>, i: int)
    requires
        0 <= i <= s.len(),
        i == 0 || s[i - 1] == '/',
        forall|k: int| i <= k < s.len() ==> s[k] != '/',
    ensures
        base_name(s) == s.subrange(i, s.len() as int),
    decreases s.len(),
{
    if s.len() == 0 {
    } else if s.len() as int == i {
        assert(s.last() == '/');
        assert(s.subrange(i, s.len() as int) =~= Seq::<char>::empty());
    } else {
        let t = s.drop_last();
        assert(forall|k: int| i <= k < t.len() ==> t[k] == s[k]);
        lemma_base_name_after(t, i);
        assert(s.subrange(i, s.len() as int) =~= t.subrange(i, t.len() as int).push(s.last()));
    }
}

/// The ` | key=value, key2=value2` tail of a text line (empty without fields).
pub open spec fn fields_tail(fields: Seq<(Seq<char>, Seq<char>)>) -> Seq<char> {
    if fields.len() == 0 {
        Seq::empty()
    } else {
        " |"@ + fields_list(fields)
    }
}

/// ` key=value, key2=value2`: each field after one space, the later ones
/// after a comma.
pub open spec fn fields_list(fields: Seq<(Seq<char>, Seq<char>)>) -> Seq<char>
    decreases fields.len(),
{
    if fields.len() == 0 {
        Seq::empty()
    } else {
        let sep = if fields.len() == 1 { " "@ } else { ", "@ };
        fields_list(fields.drop_last()) + sep + fields.last().0 + "="@ + fields.last().1
    }
}

/// The views of the field pairs.
pub open spec fn field_views(fields: Seq<(String, String)>) -> Seq<(Seq<char>, Seq<char>)> {
    fields.map_values(|p: (String, String)| (p.0@, p.1@))
}

/// A text log line, ending in a newline.
pub open spec fn text_line(
    time: Seq<char>,
    service: Seq<char>,
    level: EventLevel,
    file: Seq<char>,
    line: nat,
    message: Seq<char>,
    fields: Seq<(Seq<char>, Seq<char>)>,
) -> Seq<char> {
    "["@ + time + "] ["@ + service + "] ["@ + text_level_label(level) + "] ["@ + base_name(file) + ":"@
        + nat_text(line) + "] - "@ + message + fields_tail(fields) + "\n"@
}

/// The text formatter: stamps its service name on each line.
pub struct TextFormat {
    pub service_name: String,
}

/// The JSON formatter: one JSON object per line.
pub struct JsonFormat;

impl TextFormat {
    /// A text formatter for the named service.
    pub fn new(service_name: &str) -> (r: TextFormat)
        ensures
            r.service_name@ == service_name@,
    {
        TextFormat { service_name: owned(service_name) }
    }

    /// The line for one event; `time` is already formatted
    /// (`%Y-%m-%d %H:%M:%S%.3f`) and `fields` are the event's other fields in
    /// order, each value as text.
    pub fn format_line(
        &self,
        time: &str,
        level: &EventLevel,
        file: &str,
        line: u32,
        message: &str,
        fields: &Vec<(String, String)>,
    ) -> (r: String)
        ensures
            r@ == text_line(time@, self.service_name@, *level, file@, line as nat, message@, field_views(fields@)),
    {
        let mut r = concat("[", time);
        r.append("] [");
        r.append(self.service_name.as_str());
        r.append("] [");
        r.append(text_level(level));
        r.append("] [");
        let base = base_file_name(file);
        r.append(base.as_str());
        r.append(":");
        push_nat_text(&mut r, line as u64);
        r.append("] - ");
        r.append(message);
        let ghost head = r@;
        if fields.len() > 0 {
            r.append(" |");
            let ghost bar = r@;
            let mut i: usize = 0;
            while i < fields.len()
                invariant
                    0 < fields.len(),
                    i <= fields.len(),
                    r@ == bar + fields_list(field_views(fields@).take(i as int)),
                decreases fields.len() - i,
            {
                let ghost prev = field_views(fields@).take(i as int);
                if i == 0 {
                    r.append(" ");
                } else {
                    r.append(", ");
                }
                r.append(fields[i].0.as_str());
                r.append("=");
                r.append(fields[i].1.as_str());
                proof {
                    let next = field_views(fields@).take((i + 1) as int);
                    assert(next.drop_last() =~= prev);
                    assert(next.last() == (fields@[i as int].0@, fields@[i as int].1@));
                }
                i = i + 1;
            }
            assert(field_views(fields@).take(fields.len() as int) =~= field_views(fields@));
        } else {
            assert(field_views(fields@) =~= Seq::<(Seq<char>, Seq<char>)>::empty());
        }
        r.append("\n");
        r
    }
}

// ── Where lines go ───────────────────────────────────────────────────────────

/// The directory of the request log: the configured one, else `behavior`
/// under the log directory; none when neither is configured.
pub fn behavior_log_dir(path_behavior: &str, path: &str) -> (r: Option<String>)
    ensures
        path_behavior@.len() > 0 ==> (r matches Some(d) && d@ == path_behavior@),
        path_behavior@.len() == 0 && path@.len() > 0 ==> (r matches Some(d) && d@ == path@ + "/behavior"@),
        path_behavior@.len() == 0 && path@.len() == 0 ==> r is None,
{
    if !path_behavior.is_empty() {
        Some(owned(path_behavior))
    } else if !path.is_empty() {
        Some(concat(path, "/behavior"))
    } else {
        None
    }
}

/// The request log file of a service: `{dir}/{name}-behavior.log`.
pub fn behavior_log_file(dir: &str, name: &str) -> (r: String)
    ensures
        r@ == dir@ + "/"@ + name@ + "-behavior.log"@,
{
    let mut r = concat(dir, "/");
    r.append(name);
    r.append("-behavior.log");
    r
}

/// The size of the log buffer in bytes: the configured mebibytes, at least one.
pub fn log_buffer_bytes(buffer_size_mib: u32) -> (r: u64)
    ensures
        r == (if buffer_size_mib == 0 { 1 } else { buffer_size_mib as int }) * 1048576,
{
    let mib: u64 = if buffer_size_mib == 0 { 1 } else { buffer_size_mib as u64 };
    mib * 1048576
}

/// The flush interval of the log buffer in milliseconds, at least one.
pub fn log_flush_interval_ms(configured: u32) -> (r: u64)
    ensures
        r == (if configured == 0 { 1 } else { configured as int }),
{
    if configured == 0 {
        1
    } else {
        configured as u64
    }
}

} // verus!
