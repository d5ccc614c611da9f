//! What the Oracle repositories compute around their queries: connection
//! settings, the ordering and paging tail of a query, the per-minute series
//! with its gaps filled, and each merchant's dropdown fields.
use vstd::prelude::*;
use std::collections::HashMap;
use crate::model::{copy_dropdown_list, DropdownItem, TemplateField};
use crate::questions::DropdownTable;
use crate::text::{chars_of, chars_eq, nat_text, owned, push_nat_text};

verus! {

broadcast use vstd::std_specs::hash::group_hash_axioms;

/// Parsed statement handles cached per session.
pub const STMT_CACHE_SIZE: u32 = 64;

/// Rows prefetched per round trip.
pub const DEFAULT_PREFETCH_ROWS: u32 = 100;

/// Rows of the fetch buffer.
pub const DEFAULT_FETCH_ARRAY_SIZE: u32 = 110;

/// Bytes of LOB data prefetched with each locator.
pub const LOB_PREFETCH_BYTES: u32 = 131072;

/// What a connection is opened with.
pub struct OracleConnectionManager {
    pub user: String,
    pub password: String,
    pub connect_string: String,
}

impl OracleConnectionManager {
    /// A manager that opens connections with these credentials.
    pub fn new(user: &str, password: &str, connect_string: &str) -> (r: OracleConnectionManager)
        ensures
            r.user@ == user@,
            r.password@ == password@,
            r.connect_string@ == connect_string@,
    {
        OracleConnectionManager {
            user: owned(user),
            password: owned(password),
            connect_string: owned(connect_string),
        }
    }
}

/// Sizes and times of the connection pool.
pub struct PoolConfig {
    /// Most connections.
    pub max_size: u32,
    /// Idle connections kept ready.
    pub min_idle: u32,
    /// Longest use of one connection, in seconds.
    pub max_lifetime_secs: u64,
    /// Longest idle time of a connection, in minutes.
    pub max_idle_time_mins: u64,
    /// Longest wait for a free connection, in seconds.
    pub connection_timeout_secs: u64,
}

impl PoolConfig {
    /// The idle time limit in seconds.
    pub fn idle_timeout_secs(&self) -> (r: u64)
        requires
            self.max_idle_time_mins * 60 <= u64::MAX,
        ensures
            r == self.max_idle_time_mins * 60,
    {
        self.max_idle_time_mins * 60
    }
}

/// The read timeout of a repository in seconds: the configured one, or 15
/// when none (0) is configured.
pub fn read_timeout_secs(configured: u64) -> (r: u64)
    ensures
        r == if configured > 0 { configured } else { 15 },
{
    if configured > 0 {
        configured
    } else {
        15
    }
}

// ── Ordering and paging ──────────────────────────────────────────────────────

/// The rows skipped before a page: `(page - 1) * page_size`, page 0 counting
/// as page 1.
pub open spec fn page_offset(page: u32, page_size: u32) -> nat {
    if page == 0 {
        0
    } else {
        ((page - 1) * page_size) as nat
    }
}

/// The text after the WHERE clause of a listing query: ` ORDER BY {order}`
/// when an order is given, then ` OFFSET {offset} ROWS FETCH NEXT {size}
/// ROWS ONLY` when a page is asked for.
pub open spec fn listing_tail_text(order_by: Option<Seq<char>>, pagination: Option<(u32, u32)>) -> Seq<char> {
    let order = match order_by {
        Some(o) => " ORDER BY "@ + o,
        None => Seq::empty(),
    };
    let page = match pagination {
        Some(p) => " OFFSET "@ + nat_text(page_offset(p.0, p.1)) + " ROWS FETCH NEXT "@ + nat_text(p.1 as nat)
            + " ROWS ONLY"@,
        None => Seq::empty(),
    };
    order + page
}

/// The ordering and paging tail of a listing query.
pub fn listing_tail(order_by: Option<&str>, pagination: Option<(u32, u32)>) -> (r: String)
    requires
        pagination matches Some(p) ==> page_offset(p.0, p.1) <= u32::MAX,
    ensures
        r@ == listing_tail_text(
            match order_by {
                Some(o) => Some(o@),
                None => None,
            },
            pagination,
        ),
{
    let mut r = String::new();
    match order_by {
        Some(o) => {
            r.append(" ORDER BY ");
            r.append(o);
        },
        None => {},
    }
    match pagination {
        Some((page, page_size)) => {
            let before: u32 = if page == 0 { 0 } else { page - 1 };
            assert(before * page_size == page_offset(page, page_size));
            let offset: u32 = before * page_size;
            r.append(" OFFSET ");
            push_nat_text(&mut r, offset as u64);
            r.append(" ROWS FETCH NEXT ");
            push_nat_text(&mut r, page_size as u64);
            r.append(" ROWS ONLY");
        },
        None => {},
    }
    r
}

/// The locking tail of a single-row query: ` FOR UPDATE WAIT {secs}` when a
/// lock wait is asked for, else nothing.
pub open spec fn lock_wait_text(for_update: Option<u32>) -> Seq<char> {
    match for_update {
        Some(secs) => " FOR UPDATE WAIT "@ + nat_text(secs as nat),
        None => Seq::empty(),
    }
}

/// The locking tail of a single-row query.
pub fn lock_wait_clause(for_update: Option<u32>) -> (r: String)
    ensures
        r@ == lock_wait_text(for_update),
{
    let mut r = String::new();
    match for_update {
        Some(secs) => {
            r.append(" FOR UPDATE WAIT ");
            push_nat_text(&mut r, secs as u64);
        },
        None => {},
    }
    r
}

// ── Statistics of the validation records ────────────────────────────────────

/// The records of one customer at one merchant: how many, how many failed
/// and succeeded, and when the last was made (seconds since the Unix epoch).
pub struct ValidationSummary {
    pub last_created: Option<i64>,
    pub merchant_code: String,
    pub customer_id: i64,
    pub total_count: i64,
    pub fail_count: i64,
    pub success_count: i64,
}

/// The records from one IP address: how many, how many failed, and when
/// the first and the last were made (seconds since the Unix epoch).
pub struct ValidationIpStats {
    pub first_seen: Option<i64>,
    pub last_seen: Option<i64>,
    pub ip: String,
    pub total_count: i64,
    pub fail_count: i64,
}

/// The records made in one minute, the minute given by its first second
/// since the Unix epoch.
pub struct ValidationMinuteStat {
    pub tx_minute: i64,
    pub count: i64,
}

// ── Per-minute counts ────────────────────────────────────────────────────────

/// The count the query gave for `minute`: that of its last row, else 0.
pub open spec fn count_for(rows: Seq<(i64, i64)>, minute: int) -> i64
    decreases rows.len(),
{
    if rows.len() == 0 {
        0
    } else if rows.last().0 == minute {
        rows.last().1
    } else {
        count_for(rows.drop_last(), minute)
    }
}

/// The counts of the rows by minute, the last row of a minute winning.
pub open spec fn counts_map(rows: Seq<(i64, i64)>) -> Map<i64, i64>
    decreases rows.len(),
{
    if rows.len() == 0 {
        Map::empty()
    } else {
        counts_map(rows.drop_last()).insert(rows.last().0, rows.last().1)
    }
}

proof fn lemma_counts_map(rows: Seq<(i64, i64)>, minute: i64)
    ensures
        counts_map(rows).contains_key(minute) ==> counts_map(rows)[minute] == count_for(rows, minute as int),
        !counts_map(rows).contains_key(minute) ==> count_for(rows, minute as int) == 0,
    decreases rows.len(),
{
    if rows.len() > 0 {
        lemma_counts_map(rows.drop_last(), minute);
    }
}

/// One entry per minute from `start_minute` to `end_minute` (minutes since
/// the epoch, both included), each with the count the query gave for it,
/// 0 for a minute without rows.
pub fn minute_series(rows: &Vec<(i64, i64)>, start_minute: i64, end_minute: i64) -> (r: Vec<(i64, i64)>)
    requires
        end_minute < i64::MAX,
    ensures
        r@.len() == if end_minute >= start_minute { end_minute - start_minute + 1 } else { 0 },
        forall|k: int| 0 <= k < r@.len() ==> r@[k].0 == start_minute + k && r@[k].1 == count_for(rows@, start_minute + k),
{
    let mut counts: HashMap<i64, i64> = HashMap::new();
    let mut i: usize = 0;
    while i < rows.len()
        invariant
            i <= rows.len(),
            counts@ == counts_map(rows@.take(i as int)),
        decreases rows.len() - i,
    {
        let (minute, count) = rows[i];
        counts.insert(minute, count);
        assert(rows@.take((i + 1) as int).drop_last() =~= rows@.take(i as int));
        i = i + 1;
    }
    assert(rows@.take(rows.len() as int) =~= rows@);
    let mut r: Vec<(i64, i64)> = Vec::new();
    if end_minute < start_minute {
        return r;
    }
    let mut cur: i64 = start_minute;
    while cur <= end_minute
        invariant
            start_minute <= cur <= end_minute + 1,
            end_minute < i64::MAX,
            counts@ == counts_map(rows@),
            r@.len() == cur - start_minute,
            forall|k: int| 0 <= k < r@.len() ==> r@[k].0 == start_minute + k && r@[k].1 == count_for(rows@, start_minute + k),
        decreases end_minute + 1 - cur,
    {
        proof {
            lemma_counts_map(rows@, cur);
        }
        let count: i64 = match counts.get(&cur) {
            Some(c) => *c,
            None => 0,
        };
        r.push((cur, count));
        cur = cur + 1;
    }
    r
}

// ── Dropdown fields ──────────────────────────────────────────────────────────

/// Whether a template field is a dropdown (`DD`) with an id.
pub open spec fn is_dropdown_field(f: TemplateField) -> bool {
    f.field_attribute@ == "DD"@ && f.field_id@.len() > 0
}

/// The dropdown fields of a template, in order.
pub open spec fn dropdown_fields(fields: Seq<TemplateField>) -> Seq<TemplateField>
    decreases fields.len(),
{
    if fields.len() == 0 {
        Seq::empty()
    } else if is_dropdown_field(fields.last()) {
        dropdown_fields(fields.drop_last()).push(fields.last())
    } else {
        dropdown_fields(fields.drop_last())
    }
}

/// The dropdown table of one merchant's template: its dropdown fields, each
/// under its id (a later field of the same id winning); `None` when the
/// template has no dropdown field.
pub fn dropdown_table_of(fields: &Vec<TemplateField>) -> (r: Option<DropdownTable>)
    ensures
        dropdown_fields(fields@).len() == 0 ==> r is None,
        dropdown_fields(fields@).len() > 0 ==> (r matches Some(t) && t.entries@.len() == dropdown_fields(fields@).len()
            && forall|k: int| 0 <= k < t.entries@.len() ==> #[trigger] t.entries@[k].0@ == dropdown_fields(fields@)[k].field_id@
                && t.entries@[k].1@ == dropdown_fields(fields@)[k].dropdown_list@),
{
    let mut entries: Vec<(String, Vec<DropdownItem>)> = Vec::new();
    let dd = chars_of("DD");
    proof {
        reveal_strlit("DD");
    }
    let mut i: usize = 0;
    while i < fields.len()
        invariant
            i <= fields.len(),
            dd@ == "DD"@,
            entries@.len() == dropdown_fields(fields@.take(i as int)).len(),
            forall|k: int| 0 <= k < entries@.len() ==> #[trigger] entries@[k].0@ == dropdown_fields(fields@.take(i as int))[k].field_id@
                && entries@[k].1@ == dropdown_fields(fields@.take(i as int))[k].dropdown_list@,
        decreases fields.len() - i,
    {
        let f = &fields[i];
        let keep = chars_eq(&chars_of(f.field_attribute.as_str()), &dd) && !f.field_id.as_str().is_empty();
        proof {
            let now = fields@.take((i + 1) as int);
            assert(now.drop_last() =~= fields@.take(i as int));
            assert(now.last() == *f);
        }
        if keep {
            entries.push((f.field_id.clone(), copy_dropdown_list(&f.dropdown_list)));
        }
        i = i + 1;
    }
    assert(fields@.take(fields.len() as int) =~= fields@);
    if entries.len() == 0 {
        None
    } else {
        Some(DropdownTable { entries })
    }
}

/// The table entries a template's dropdown fields give.
pub open spec fn table_matches(t: DropdownTable, fields: Seq<TemplateField>) -> bool {
    let dd = dropdown_fields(fields);
    &&& t.entries@.len() == dd.len()
    &&& forall|k: int| 0 <= k < dd.len() ==> #[trigger] t.entries@[k].0@ == dd[k].field_id@
        && t.entries@[k].1@ == dd[k].dropdown_list@
}

/// The merchants whose template has a dropdown field, in order.
pub open spec fn merchants_with_dropdowns(rows: Seq<(String, Vec<TemplateField>)>) -> Seq<(String, Vec<TemplateField>)>
    decreases rows.len(),
{
    if rows.len() == 0 {
        Seq::empty()
    } else if dropdown_fields(rows.last().1@).len() > 0 {
        merchants_with_dropdowns(rows.drop_last()).push(rows.last())
    } else {
        merchants_with_dropdowns(rows.drop_last())
    }
}

/// Each entry of `r` is the code and dropdown table of the merchant at the
/// same place in `m`.
pub open spec fn configs_match(r: Seq<(String, std::sync::Arc<DropdownTable>)>, m: Seq<(String, Vec<TemplateField>)>) -> bool {
    &&& r.len() == m.len()
    &&& forall|k: int| 0 <= k < r.len() ==> #[trigger] r[k].0@ == m[k].0@ && table_matches(*r[k].1, m[k].1@)
}

/// Each merchant's dropdown table, for the merchants (code and template
/// fields, in the order read) whose template has a dropdown field.
pub fn dropdown_configs(rows: &Vec<(String, Vec<TemplateField>)>) -> (r: Vec<(String, std::sync::Arc<DropdownTable>)>)
    ensures
        configs_match(r@, merchants_with_dropdowns(rows@)),
{
    let mut r: Vec<(String, std::sync::Arc<DropdownTable>)> = Vec::new();
    let mut i: usize = 0;
    while i < rows.len()
        invariant
            i <= rows.len(),
            configs_match(r@, merchants_with_dropdowns(rows@.take(i as int))),
        decreases rows.len() - i,
    {
        proof {
            let now = rows@.take((i + 1) as int);
            assert(now.drop_last() =~= rows@.take(i as int));
            assert(now.last() == rows@[i as int]);
        }
        match dropdown_table_of(&rows[i].1) {
            Some(t) => {
                r.push((rows[i].0.clone(), std::sync::Arc::new(t)));
            },
            None => {},
        }
        i = i + 1;
    }
    assert(rows@.take(rows.len() as int) =~= rows@);
    r
}

} // verus!
