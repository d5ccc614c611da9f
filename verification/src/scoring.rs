//! Scoring of submitted verification answers.
//!
//! Profile questions are scored here against what USS knows of the customer;
//! financial and history questions are scored by MCS, whose per-field verdicts
//! are turned into answers here too.
use vstd::prelude::*;
use crate::model::{lemma_qa_index_bounds, qa_at, qa_index, question_at, qa_upsert, MerchantRuleConfig, QA, QaTable, QaView, Question, QuestionMap};
use crate::text::{chars_of, contains_text, owned, parse_i64, parse_i64_chars, str_eq, to_lowercase, trim, trim_chars, unicode_lowercase};
use crate::mcs::VerifyFinanceHistoryResp;
use crate::types::VerifyDataItem;
use crate::uss::{profile_value, text_sig, ScoringProfile};
use crate::uss_mapping::{get_uss_mapping_config_sync, mapping_key, UssMappingCache};

verus! {

// ── Field id lists ───────────────────────────────────────────────────────────

/// Field ids whose answers MCS scores (financial accounts and last
/// deposit / withdrawal).
pub open spec fn is_financial_history_id(f: Seq<char>) -> bool {
    ||| f == "BANK_ACCOUNT"@
    ||| f == "CARD_HOLDER_NAME"@
    ||| f == "VIRTUAL_WALLET_ADDRESS"@
    ||| f == "VIRTUAL_WALLET_NAME"@
    ||| f == "E_WALLET_ACCOUNT"@
    ||| f == "E_WALLET_NAME"@
    ||| f == "LAST_DEPOSIT_AMOUNT"@
    ||| f == "LAST_DEPOSIT_TIME"@
    ||| f == "LAST_DEPOSIT_METHOD"@
    ||| f == "LAST_WITHDRAWAL_AMOUNT"@
    ||| f == "LAST_WITHDRAWAL_TIME"@
    ||| f == "LAST_WITHDRAWAL_METHOD"@
}

/// Field ids left out of the question list (still scored by MCS).
pub open spec fn is_blocked_id(f: Seq<char>) -> bool {
    ||| f == "LAST_WITHDRAWAL_AMOUNT"@
    ||| f == "LAST_WITHDRAWAL_METHOD"@
    ||| f == "LAST_WITHDRAWAL_TIME"@
    ||| f == "LAST_DEPOSIT_AMOUNT"@
    ||| f == "LAST_DEPOSIT_METHOD"@
    ||| f == "LAST_DEPOSIT_TIME"@
}

/// Whether MCS scores the answer to `field_id`.
pub fn is_financial_history(field_id: &str) -> (r: bool)
    ensures
        r == is_financial_history_id(field_id@),
{
    str_eq(field_id, "BANK_ACCOUNT") || str_eq(field_id, "CARD_HOLDER_NAME") || str_eq(
        field_id,
        "VIRTUAL_WALLET_ADDRESS",
    ) || str_eq(field_id, "VIRTUAL_WALLET_NAME") || str_eq(field_id, "E_WALLET_ACCOUNT")
        || str_eq(field_id, "E_WALLET_NAME") || str_eq(field_id, "LAST_DEPOSIT_AMOUNT") || str_eq(
        field_id,
        "LAST_DEPOSIT_TIME",
    ) || str_eq(field_id, "LAST_DEPOSIT_METHOD") || str_eq(field_id, "LAST_WITHDRAWAL_AMOUNT")
        || str_eq(field_id, "LAST_WITHDRAWAL_TIME") || str_eq(field_id, "LAST_WITHDRAWAL_METHOD")
}

/// Whether `field_id` is kept out of the question list.
pub fn is_blocked_field(field_id: &str) -> (r: bool)
    ensures
        r == is_blocked_id(field_id@),
{
    str_eq(field_id, "LAST_WITHDRAWAL_AMOUNT") || str_eq(field_id, "LAST_WITHDRAWAL_METHOD")
        || str_eq(field_id, "LAST_WITHDRAWAL_TIME") || str_eq(field_id, "LAST_DEPOSIT_AMOUNT")
        || str_eq(field_id, "LAST_DEPOSIT_METHOD") || str_eq(field_id, "LAST_DEPOSIT_TIME")
}

// ── Outside computations ─────────────────────────────────────────────────────

/// The day number (days since the common era, as `Datelike::num_days_from_ce`
/// counts them) of the date chrono reads from a text with the format
/// `%Y-%m-%d`; `None` when chrono refuses the text.
pub uninterp spec fn ymd_day_number(s: Seq<char>) -> Option<int>;

/// `NaiveDate::parse_from_str(s, "%Y-%m-%d")`, the date taken by its day number.
#[verifier::external_body]
fn parse_ymd_day(s: &str) -> (r: Option<i32>)
    ensures
        match r {
            Some(d) => ymd_day_number(s@) == Some(d as int),
            None => ymd_day_number(s@) is None,
        },
{
    chrono::NaiveDate::parse_from_str(s, "%Y-%m-%d").ok().map(
        |d: chrono::NaiveDate| chrono::Datelike::num_days_from_ce(&d),
    )
}

/// The day number of the date `delta` days after the date numbered `day`, as
/// `NaiveDate::checked_add_signed` computes it; `None` when chrono's calendar
/// range does not hold it.
pub uninterp spec fn date_plus_days(day: int, delta: int) -> Option<int>;

/// `NaiveDate::checked_add_signed` with a whole number of days, dates taken
/// by their day numbers. A date it gives is `delta` days on from `day`; where
/// chrono's calendar range ends is not stated.
#[verifier::external_body]
fn add_days(day: i32, delta: i32) -> (r: Option<i32>)
    ensures
        match r {
            Some(d) => date_plus_days(day as int, delta as int) == Some(d as int) && d == day + delta,
            None => date_plus_days(day as int, delta as int) is None,
        },
{
    chrono::NaiveDate::from_num_days_from_ce_opt(day).and_then(
        |d: chrono::NaiveDate| d.checked_add_signed(chrono::TimeDelta::days(delta as i64)),
    ).map(|d: chrono::NaiveDate| chrono::Datelike::num_days_from_ce(&d))
}

// ── Accuracy windows ─────────────────────────────────────────────────────────

/// Why an accuracy setting could not be applied.
pub enum AccuracyError {
    /// The duration has fewer than two characters.
    TooShort,
    /// The part before the unit is not an integer.
    BadNumber,
    /// The unit is none of `d`, `h`, `m` (in either case).
    UnknownUnit,
    /// A value is not a `YYYY-MM-DD` date.
    BadDate,
    /// The window around the submitted date leaves the calendar.
    OutOfRange,
}

/// The largest whole number of seconds a chrono `TimeDelta` holds.
pub open spec fn max_delta_secs() -> int {
    9223372036854775
}

/// Seconds per unit of an accuracy duration; 0 for an unknown unit.
pub open spec fn unit_seconds(u: char) -> int {
    if u == 'd' || u == 'D' {
        86400
    } else if u == 'h' || u == 'H' {
        3600
    } else if u == 'm' || u == 'M' {
        60
    } else {
        0
    }
}

/// The length in seconds of an accuracy duration such as `3d`, `12h` or
/// `30m` (surrounding white space ignored), or why it has none.
pub open spec fn accuracy_seconds(s: Seq<char>) -> Result<int, AccuracyError> {
    let t = trim(s);
    if t.len() < 2 {
        Err(AccuracyError::TooShort)
    } else {
        match parse_i64(t.drop_last()) {
            None => Err(AccuracyError::BadNumber),
            Some(n) => if unit_seconds(t.last()) == 0 {
                Err(AccuracyError::UnknownUnit)
            } else {
                Ok(n * unit_seconds(t.last()))
            },
        }
    }
}

/// An accuracy duration that can be read without a panic: its last
/// character is ASCII, and its length fits a chrono `TimeDelta`.
pub open spec fn accuracy_readable(s: Seq<char>) -> bool {
    let t = trim(s);
    &&& t.len() > 0 ==> (t.last() as u32) < 128
    &&& match accuracy_seconds(s) {
        Ok(secs) => -max_delta_secs() <= secs <= max_delta_secs(),
        Err(_) => true,
    }
}

/// Division of `a` by a positive `b`, rounding toward zero.
pub open spec fn div_toward_zero(a: int, b: int) -> int {
    if a >= 0 {
        a / b
    } else {
        -((-a) / b)
    }
}

/// Reads an accuracy duration, giving its length in seconds.
pub fn parse_accuracy_duration(s: &str) -> (r: Result<i64, AccuracyError>)
    requires
        accuracy_readable(s@),
    ensures
        match r {
            Ok(secs) => accuracy_seconds(s@) == Ok::<int, AccuracyError>(secs as int),
            Err(e) => accuracy_seconds(s@) == Err::<int, AccuracyError>(e),
        },
{
    let v = chars_of(s);
    let t = trim_chars(&v);
    if t.len() < 2 {
        return Err(AccuracyError::TooShort);
    }
    let unit = t[t.len() - 1];
    let mut body: Vec<char> = Vec::new();
    let mut i: usize = 0;
    while i < t.len() - 1
        invariant
            t.len() >= 2,
            i <= t.len() - 1,
            body@ == t@.subrange(0, i as int),
        decreases t.len() - 1 - i,
    {
        body.push(t[i]);
        assert(t@.subrange(0, (i + 1) as int) =~= t@.subrange(0, i as int).push(t@[i as int]));
        i = i + 1;
    }
    assert(body@ =~= t@.drop_last());
    let n = match parse_i64_chars(&body) {
        Some(n) => n,
        None => {
            return Err(AccuracyError::BadNumber);
        },
    };
    let per: i64 = if unit == 'd' || unit == 'D' {
        86400
    } else if unit == 'h' || unit == 'H' {
        3600
    } else if unit == 'm' || unit == 'M' {
        60
    } else {
        return Err(AccuracyError::UnknownUnit);
    };
    assert(-max_delta_secs() <= n * per <= max_delta_secs());
    Ok(n * per)
}

/// Whether an accuracy duration can be read without a panic (see
/// `accuracy_readable`); the date matching asks for it.
pub fn accuracy_is_readable(s: &str) -> (r: bool)
    ensures
        r == accuracy_readable(s@),
{
    let v = chars_of(s);
    let t = trim_chars(&v);
    if t.len() == 0 {
        return true;
    }
    let unit = t[t.len() - 1];
    if (unit as u32) >= 128 {
        return false;
    }
    if t.len() < 2 {
        return true;
    }
    let mut body: Vec<char> = Vec::new();
    let mut i: usize = 0;
    while i < t.len() - 1
        invariant
            t.len() >= 2,
            i <= t.len() - 1,
            body@ == t@.subrange(0, i as int),
        decreases t.len() - 1 - i,
    {
        body.push(t[i]);
        assert(t@.subrange(0, (i + 1) as int) =~= t@.subrange(0, i as int).push(t@[i as int]));
        i = i + 1;
    }
    assert(body@ =~= t@.drop_last());
    let n = match parse_i64_chars(&body) {
        Some(n) => n,
        None => {
            return true;
        },
    };
    let per: i128 = if unit == 'd' || unit == 'D' {
        86400
    } else if unit == 'h' || unit == 'H' {
        3600
    } else if unit == 'm' || unit == 'M' {
        60
    } else {
        return true;
    };
    assert(-0x8000_0000_0000_0000 <= n < 0x8000_0000_0000_0000);
    assert(-0x8000_0000_0000_0000 * 86400 <= (n as i128) * per <= 0x8000_0000_0000_0000 * 86400) by (nonlinear_arith)
        requires
            -0x8000_0000_0000_0000 <= n < 0x8000_0000_0000_0000,
            0 < per <= 86400,
    ;
    let secs: i128 = (n as i128) * per;
    -9223372036854775 <= secs && secs <= 9223372036854775
}

/// Rounds seconds toward zero to whole days, as `TimeDelta::num_days` does.
fn whole_days(secs: i64) -> (r: i64)
    requires
        -max_delta_secs() <= secs <= max_delta_secs(),
    ensures
        r == div_toward_zero(secs as int, 86400),
{
    if secs >= 0 {
        secs / 86400
    } else {
        -((-secs) / 86400)
    }
}

/// Whether the expected date lies within the accuracy window around the
/// submitted one: from `days` before it to `days` after it, `days` being the
/// accuracy's whole days.
pub open spec fn date_window_match(sub: Seq<char>, exp: Seq<char>, acc: Seq<char>) -> Result<bool, AccuracyError> {
    match accuracy_seconds(acc) {
        Err(e) => Err(e),
        Ok(secs) => {
            let days = div_toward_zero(secs, 86400);
            match ymd_day_number(sub) {
                None => Err(AccuracyError::BadDate),
                Some(s) => match ymd_day_number(exp) {
                    None => Err(AccuracyError::BadDate),
                    Some(e) => {
                        let lo = if i32::MIN <= -days <= i32::MAX {
                            date_plus_days(s, -days)
                        } else {
                            None
                        };
                        let hi = if i32::MIN <= days <= i32::MAX {
                            date_plus_days(s, days)
                        } else {
                            None
                        };
                        match lo {
                            Some(l) => match hi {
                                Some(h) => Ok(l <= e && e <= h),
                                None => Err(AccuracyError::OutOfRange),
                            },
                            None => Err(AccuracyError::OutOfRange),
                        }
                    },
                },
            }
        },
    }
}

/// Whether the expected date lies within `accuracy` of the submitted date.
pub fn match_date_with_accuracy(submitted_value: &str, expected_value: &str, accuracy: &str) -> (r: Result<bool, AccuracyError>)
    requires
        accuracy_readable(accuracy@),
    ensures
        r == date_window_match(submitted_value@, expected_value@, accuracy@),
{
    let secs = match parse_accuracy_duration(accuracy) {
        Ok(secs) => secs,
        Err(e) => {
            return Err(e);
        },
    };
    let days = whole_days(secs);
    let s = match parse_ymd_day(submitted_value) {
        Some(s) => s,
        None => {
            return Err(AccuracyError::BadDate);
        },
    };
    let e = match parse_ymd_day(expected_value) {
        Some(e) => e,
        None => {
            return Err(AccuracyError::BadDate);
        },
    };
    let lo = if -(i32::MAX as i64) - 1 <= -days && -days <= i32::MAX as i64 {
        add_days(s, (-days) as i32)
    } else {
        None
    };
    let hi = if -(i32::MAX as i64) - 1 <= days && days <= i32::MAX as i64 {
        add_days(s, days as i32)
    } else {
        None
    };
    match lo {
        Some(l) => match hi {
            Some(h) => Ok(l <= e && e <= h),
            None => Err(AccuracyError::OutOfRange),
        },
        None => Err(AccuracyError::OutOfRange),
    }
}

// ── Amount windows ───────────────────────────────────────────────────────────

/// `r` is a verdict the amount matcher `f` gives for the submitted value,
/// the expected value and the accuracy.
pub open spec fn amount_verdict_is<F: Fn(&str, &str, &str) -> bool>(
    f: F,
    sub: Seq<char>,
    exp: Seq<char>,
    acc: Seq<char>,
    r: bool,
) -> bool {
    exists|a: &str, b: &str, c: &str|
        #![trigger call_ensures(f, (a, b, c), r)]
        a@ == sub && b@ == exp && c@ == acc && call_ensures(f, (a, b, c), r)
}

/// The verdict of the amount matcher.
pub open spec fn amount_verdict<F: Fn(&str, &str, &str) -> bool>(
    f: F,
    sub: Seq<char>,
    exp: Seq<char>,
    acc: Seq<char>,
) -> bool {
    choose|r: bool| amount_verdict_is(f, sub, exp, acc, r)
}

/// An amount matcher that accepts every input and gives one verdict per input.
pub open spec fn amount_matcher_ok<F: Fn(&str, &str, &str) -> bool>(f: F) -> bool {
    &&& forall|a: &str, b: &str, c: &str| #[trigger] call_requires(f, (a, b, c))
    &&& forall|sub: Seq<char>, exp: Seq<char>, acc: Seq<char>, r1: bool, r2: bool|
        #![trigger amount_verdict_is(f, sub, exp, acc, r1), amount_verdict_is(f, sub, exp, acc, r2)]
        amount_verdict_is(f, sub, exp, acc, r1) && amount_verdict_is(f, sub, exp, acc, r2) ==> r1
            == r2
}

/// An accuracy that compares amounts (it ends with `%`).
pub open spec fn is_amount_accuracy(acc: Seq<char>) -> bool {
    acc.len() > 0 && acc.last() == '%'
}

/// Whether the submitted value matches the expected one within `accuracy`:
/// amounts (accuracy ending with `%`) by `match_amount`, dates otherwise.
/// A value that cannot be read does not match.
pub fn match_with_accuracy<F: Fn(&str, &str, &str) -> bool>(
    submitted_value: &str,
    expected_value: &str,
    accuracy: &str,
    match_amount: &F,
) -> (r: bool)
    requires
        amount_matcher_ok(*match_amount),
        !is_amount_accuracy(accuracy@) ==> accuracy_readable(accuracy@),
    ensures
        is_amount_accuracy(accuracy@) ==> r == amount_verdict(
            *match_amount,
            submitted_value@,
            expected_value@,
            accuracy@,
        ),
        !is_amount_accuracy(accuracy@) ==> r == (date_window_match(
            submitted_value@,
            expected_value@,
            accuracy@,
        ) == Ok::<bool, AccuracyError>(true)),
{
    let acc = chars_of(accuracy);
    if acc.len() > 0 && acc[acc.len() - 1] == '%' {
        let r = match_amount(submitted_value, expected_value, accuracy);
        assert(amount_verdict_is(*match_amount, submitted_value@, expected_value@, accuracy@, r));
        r
    } else {
        match match_date_with_accuracy(submitted_value, expected_value, accuracy) {
            Ok(b) => b,
            Err(_) => false,
        }
    }
}

// ── Profile answers ──────────────────────────────────────────────────────────

/// An accuracy that asks for more than an exact match.
pub open spec fn needs_accuracy(acc: Seq<char>) -> bool {
    acc.len() > 0 && acc != "exact"@
}

/// The value a submitted answer stands for: the USS id the mapping cache
/// holds for it, or the answer itself.
pub open spec fn submitted_value(item: VerifyDataItem, cache: Map<Seq<char>, Seq<char>>) -> Seq<char> {
    let k = mapping_key(item.item.field_id@, item.item.field_value@);
    if cache.dom().contains(k) {
        cache[k]
    } else {
        item.item.field_value@
    }
}

/// Whether a bound answer is correct: it is not empty, and it equals the
/// customer's value ignoring case, or matches it within the accuracy.
pub open spec fn bound_answer_correct<F: Fn(&str, &str, &str) -> bool>(
    sub: Seq<char>,
    exp: Seq<char>,
    acc: Seq<char>,
    f: F,
) -> bool {
    if sub.len() == 0 {
        false
    } else if unicode_lowercase(sub) == unicode_lowercase(exp) {
        true
    } else if needs_accuracy(acc) {
        if is_amount_accuracy(acc) {
            amount_verdict(f, sub, exp, acc)
        } else {
            date_window_match(sub, exp, acc) == Ok::<bool, AccuracyError>(true)
        }
    } else {
        false
    }
}

/// The answer recorded for a profile question. A bound answer scores the
/// question's score when correct; an unbound one is correct, and scores the
/// merchant's empty score, when USS has no value (empty or `-1`).
pub open spec fn profile_answer<F: Fn(&str, &str, &str) -> bool>(
    item: VerifyDataItem,
    p: ScoringProfile,
    q: Question,
    cache: Map<Seq<char>, Seq<char>>,
    empty_score: i32,
    f: F,
) -> QaView {
    let exp = profile_value(p, item.item.field_id@);
    let correct = if item.bind {
        bound_answer_correct(submitted_value(item, cache), exp, q.accuracy@, f)
    } else {
        exp.len() == 0 || exp == "-1"@
    };
    QaView {
        field_id: item.item.field_id@,
        field_type: q.field_type@,
        correct,
        score: if !correct {
            0
        } else if item.bind {
            q.score as int
        } else {
            empty_score as int
        },
        total_score: q.score as int,
    }
}

/// The answer a submitted item yields, if it is a profile question the
/// merchant configured.
pub open spec fn scored_profile_answer<F: Fn(&str, &str, &str) -> bool>(
    item: VerifyDataItem,
    p: ScoringProfile,
    questions: Seq<(String, Question)>,
    cache: Map<Seq<char>, Seq<char>>,
    empty_score: i32,
    f: F,
) -> Option<QaView> {
    if is_financial_history_id(item.item.field_id@) {
        None
    } else {
        match question_at(questions, item.item.field_id@) {
            Some(q) => Some(profile_answer(item, p, q, cache, empty_score, f)),
            None => None,
        }
    }
}

/// The answers after scoring `items` in order into `t`.
pub open spec fn score_profile_items<F: Fn(&str, &str, &str) -> bool>(
    t: Seq<QaView>,
    items: Seq<VerifyDataItem>,
    p: ScoringProfile,
    questions: Seq<(String, Question)>,
    cache: Map<Seq<char>, Seq<char>>,
    empty_score: i32,
    f: F,
) -> Seq<QaView>
    decreases items.len(),
{
    if items.len() == 0 {
        t
    } else {
        let t0 = score_profile_items(t, items.drop_last(), p, questions, cache, empty_score, f);
        match scored_profile_answer(items.last(), p, questions, cache, empty_score, f) {
            Some(qa) => qa_upsert(t0, qa),
            None => t0,
        }
    }
}

/// Profile scoring never records an answer for a field MCS judges: the
/// bank and wallet fields and the last deposit and withdrawal fields keep
/// whatever answer they had, whatever the player submitted.
pub proof fn lemma_profile_scoring_leaves_mcs_fields<F: Fn(&str, &str, &str) -> bool>(
    t: Seq<QaView>,
    items: Seq<VerifyDataItem>,
    p: ScoringProfile,
    questions: Seq<(String, Question)>,
    cache: Map<Seq<char>, Seq<char>>,
    empty_score: i32,
    f: F,
    key: Seq<char>,
)
    requires
        key == "BANK_ACCOUNT"@ ||
            key == "CARD_HOLDER_NAME"@ ||
            key == "E_WALLET_ACCOUNT"@ ||
            key == "E_WALLET_NAME"@ ||
            key == "VIRTUAL_WALLET_ADDRESS"@ ||
            key == "VIRTUAL_WALLET_NAME"@ ||
            key == "LAST_DEPOSIT_AMOUNT"@ ||
            key == "LAST_DEPOSIT_TIME"@ ||
            key == "LAST_DEPOSIT_METHOD"@ ||
            key == "LAST_WITHDRAWAL_AMOUNT"@ ||
            key == "LAST_WITHDRAWAL_TIME"@ ||
            key == "LAST_WITHDRAWAL_METHOD"@,
    ensures
        qa_at(score_profile_items(t, items, p, questions, cache, empty_score, f), key) == qa_at(t, key),
    decreases items.len(),
{
    if items.len() > 0 {
        lemma_profile_scoring_leaves_mcs_fields(t, items.drop_last(), p, questions, cache, empty_score, f, key);
        let t0 = score_profile_items(t, items.drop_last(), p, questions, cache, empty_score, f);
        match scored_profile_answer(items.last(), p, questions, cache, empty_score, f) {
            Some(qa) => {
                lemma_qa_at_upsert(t0, qa);
            },
            None => {},
        }
    }
}

/// Scoring `item` compares dates, under an accuracy that is not an amount one.
pub open spec fn reaches_date_match(
    item: VerifyDataItem,
    p: ScoringProfile,
    questions: Seq<(String, Question)>,
    cache: Map<Seq<char>, Seq<char>>,
) -> bool {
    &&& !is_financial_history_id(item.item.field_id@)
    &&& question_at(questions, item.item.field_id@) is Some
    &&& item.bind
    &&& submitted_value(item, cache).len() > 0
    &&& unicode_lowercase(submitted_value(item, cache)) != unicode_lowercase(
        profile_value(p, item.item.field_id@),
    )
    &&& needs_accuracy(question_at(questions, item.item.field_id@)->0.accuracy@)
    &&& !is_amount_accuracy(question_at(questions, item.item.field_id@)->0.accuracy@)
}

/// Whether scoring `item` would compare dates under an accuracy that cannot
/// be read.
pub fn date_accuracy_unreadable(
    item: &VerifyDataItem,
    profile: &ScoringProfile,
    questions: &QuestionMap,
    uss_mapping: &UssMappingCache,
) -> (r: bool)
    ensures
        r == (reaches_date_match(*item, *profile, questions.entries@, uss_mapping.contents())
            && !accuracy_readable(question_at(questions.entries@, item.item.field_id@)->0.accuracy@)),
{
    let field_id = item.item.field_id.as_str();
    if is_financial_history(field_id) || !item.bind {
        return false;
    }
    match questions.get(field_id) {
        None => false,
        Some(q) => {
            let raw = item.item.field_value.as_str();
            let submitted = match get_uss_mapping_config_sync(uss_mapping, field_id, raw) {
                Some(uss_id) => uss_id,
                None => owned(raw),
            };
            if submitted.as_str().is_empty() {
                return false;
            }
            let expected = profile.lookup_field(field_id);
            let a = to_lowercase(submitted.as_str());
            let b = to_lowercase(expected.as_str());
            if a == b {
                return false;
            }
            let acc = chars_of(q.accuracy.as_str());
            if acc.len() == 0 || str_eq(q.accuracy.as_str(), "exact") || acc[acc.len() - 1] == '%' {
                return false;
            }
            !accuracy_is_readable(q.accuracy.as_str())
        },
    }
}

/// Whether every answer in `items` that scoring would compare as dates has a
/// readable accuracy: what the profile scoring asks of its caller.
pub fn profile_accuracies_ready(
    items: &Vec<VerifyDataItem>,
    profile: &ScoringProfile,
    questions: &QuestionMap,
    uss_mapping: &UssMappingCache,
) -> (r: bool)
    ensures
        r == (forall|i: int|
            0 <= i < items.len() && reaches_date_match(
                #[trigger] items@[i],
                *profile,
                questions.entries@,
                uss_mapping.contents(),
            ) ==> accuracy_readable(question_at(questions.entries@, items@[i].item.field_id@)->0.accuracy@)),
{
    let mut i: usize = 0;
    while i < items.len()
        invariant
            i <= items.len(),
            forall|k: int|
                0 <= k < i && reaches_date_match(
                    #[trigger] items@[k],
                    *profile,
                    questions.entries@,
                    uss_mapping.contents(),
                ) ==> accuracy_readable(question_at(questions.entries@, items@[k].item.field_id@)->0.accuracy@),
        decreases items.len() - i,
    {
        if date_accuracy_unreadable(&items[i], profile, questions, uss_mapping) {
            return false;
        }
        i = i + 1;
    }
    true
}

/// The texts of a list of strings.
pub open spec fn texts(v: Seq<String>) -> Seq<Seq<char>> {
    v.map_values(|s: String| s@)
}

/// The field ids of submitted items.
pub open spec fn item_field_ids(items: Seq<VerifyDataItem>) -> Seq<Seq<char>> {
    items.map_values(|d: VerifyDataItem| d.item.field_id@)
}

/// Scores the profile questions among `data_items` into `qa_map`, and notes
/// every submitted field id in `submitted_field_ids`. Financial and history
/// items, and items whose field id the merchant did not configure, are
/// skipped; a later item for a field id replaces an earlier answer.
pub fn accurate_judgment_score<F: Fn(&str, &str, &str) -> bool>(
    submitted_field_ids: &mut Vec<String>,
    data_items: &Vec<VerifyDataItem>,
    profile: &ScoringProfile,
    rule_cfg: &MerchantRuleConfig,
    qa_map: &mut QaTable,
    field_id_map_cfg: &QuestionMap,
    uss_mapping: &UssMappingCache,
    match_amount: &F,
)
    requires
        amount_matcher_ok(*match_amount),
        forall|i: int|
            0 <= i < data_items.len() && reaches_date_match(
                #[trigger] data_items@[i],
                *profile,
                field_id_map_cfg.entries@,
                uss_mapping.contents(),
            ) ==> accuracy_readable(
                question_at(field_id_map_cfg.entries@, data_items@[i].item.field_id@)->0.accuracy@,
            ),
    ensures
        texts(final(submitted_field_ids)@) == texts(old(submitted_field_ids)@) + item_field_ids(
            data_items@,
        ),
        final(qa_map)@ == score_profile_items(
            old(qa_map)@,
            data_items@,
            *profile,
            field_id_map_cfg.entries@,
            uss_mapping.contents(),
            rule_cfg.empty_score,
            *match_amount,
        ),
{
    let empty_score = rule_cfg.empty_score;
    let ghost qs = field_id_map_cfg.entries@;
    let ghost cache = uss_mapping.contents();
    let mut i: usize = 0;
    while i < data_items.len()
        invariant
            i <= data_items.len(),
            amount_matcher_ok(*match_amount),
            empty_score == rule_cfg.empty_score,
            qs == field_id_map_cfg.entries@,
            cache == uss_mapping.contents(),
            forall|k: int|
                0 <= k < data_items.len() && reaches_date_match(
                    #[trigger] data_items@[k],
                    *profile,
                    qs,
                    cache,
                ) ==> accuracy_readable(question_at(qs, data_items@[k].item.field_id@)->0.accuracy@),
            texts(submitted_field_ids@) == texts(old(submitted_field_ids)@) + item_field_ids(
                data_items@.subrange(0, i as int),
            ),
            qa_map@ == score_profile_items(
                old(qa_map)@,
                data_items@.subrange(0, i as int),
                *profile,
                qs,
                cache,
                empty_score,
                *match_amount,
            ),
        decreases data_items.len() - i,
    {
        let data_item = &data_items[i];
        let field_id = data_item.item.field_id.as_str();
        let ghost prefix = data_items@.subrange(0, i as int);
        let ghost next = data_items@.subrange(0, (i + 1) as int);
        proof {
            assert(next.drop_last() =~= prefix);
            assert(next.last() == *data_item);
            assert(item_field_ids(next) =~= item_field_ids(prefix).push(data_item.item.field_id@));
        }
        let ghost before = submitted_field_ids@;
        submitted_field_ids.push(data_item.item.field_id.clone());
        proof {
            assert(texts(submitted_field_ids@) =~= texts(before).push(data_item.item.field_id@));
            assert(texts(submitted_field_ids@) =~= texts(old(submitted_field_ids)@) + item_field_ids(next));
        }
        if !is_financial_history(field_id) {
            match field_id_map_cfg.get(field_id) {
                None => {},
                Some(question_cfg) => {
                    let expected_value = profile.lookup_field(field_id);
                    let raw_submitted = data_item.item.field_value.as_str();
                    let submitted = match get_uss_mapping_config_sync(uss_mapping, field_id, raw_submitted) {
                        Some(uss_id) => uss_id,
                        None => owned(raw_submitted),
                    };
                    assert(submitted@ == submitted_value(*data_item, cache));
                    let correct: bool = if data_item.bind {
                        if submitted.as_str().is_empty() {
                            false
                        } else {
                            let a = to_lowercase(submitted.as_str());
                            let b = to_lowercase(expected_value.as_str());
                            if a == b {
                                true
                            } else if !question_cfg.accuracy.as_str().is_empty() && !str_eq(
                                question_cfg.accuracy.as_str(),
                                "exact",
                            ) {
                                proof {
                                    if !is_amount_accuracy(question_cfg.accuracy@) {
                                        assert(reaches_date_match(data_items@[i as int], *profile, qs, cache));
                                    }
                                }
                                match_with_accuracy(
                                    submitted.as_str(),
                                    expected_value.as_str(),
                                    question_cfg.accuracy.as_str(),
                                    match_amount,
                                )
                            } else {
                                false
                            }
                        }
                    } else {
                        expected_value.as_str().is_empty() || str_eq(expected_value.as_str(), "-1")
                    };
                    let score: i32 = if !correct {
                        0
                    } else if data_item.bind {
                        question_cfg.score
                    } else {
                        empty_score
                    };
                    let qa = QA {
                        field_id: data_item.item.field_id.clone(),
                        field_type: question_cfg.field_type.clone(),
                        correct,
                        score,
                        total_score: question_cfg.score,
                    };
                    assert(qa@ == profile_answer(*data_item, *profile, *question_cfg, cache, empty_score, *match_amount));
                    qa_map.insert(qa);
                },
            }
        }
        i = i + 1;
    }
    assert(data_items@.subrange(0, data_items.len() as int) =~= data_items@);
}

// ── Financial and history answers ───────────────────────────────────────────

/// The answer for a field MCS judged, if the player submitted it and the
/// merchant configured it: MCS verdict 3 (matched) scores the question's
/// score, 2 (both empty) the merchant's empty score, anything else nothing.
pub open spec fn financial_answer(
    field_id: Seq<char>,
    raw_score: i32,
    submitted: Seq<Seq<char>>,
    questions: Seq<(String, Question)>,
    empty_score: i32,
) -> Option<QaView> {
    match question_at(questions, field_id) {
        None => None,
        Some(q) => if !submitted.contains(field_id) {
            None
        } else {
            Some(
                QaView {
                    field_id,
                    field_type: q.field_type@,
                    correct: raw_score == 3 || raw_score == 2,
                    score: if raw_score == 3 {
                        q.score as int
                    } else if raw_score == 2 {
                        empty_score as int
                    } else {
                        0
                    },
                    total_score: q.score as int,
                },
            )
        },
    }
}

/// MCS's verdict for each financial and history field id, in scoring order.
pub open spec fn financial_verdicts(resp: VerifyFinanceHistoryResp) -> Seq<(Seq<char>, i32)> {
    let f = resp.value.verify_player_finance_info;
    let h = resp.value.verify_player_history_info;
    seq![
        ("BANK_ACCOUNT"@, f.bc_number),
        ("CARD_HOLDER_NAME"@, f.bc_holder_name),
        ("E_WALLET_ACCOUNT"@, f.ew_account),
        ("E_WALLET_NAME"@, f.ew_holder_name),
        ("VIRTUAL_WALLET_ADDRESS"@, f.vw_address),
        ("VIRTUAL_WALLET_NAME"@, f.vw_holder_name),
        ("LAST_DEPOSIT_AMOUNT"@, h.last_deposit_amount),
        ("LAST_DEPOSIT_TIME"@, h.last_deposit_time),
        ("LAST_DEPOSIT_METHOD"@, h.last_deposit_method),
        ("LAST_WITHDRAWAL_AMOUNT"@, h.last_withdraw_amount),
        ("LAST_WITHDRAWAL_TIME"@, h.last_withdraw_time),
        ("LAST_WITHDRAWAL_METHOD"@, h.last_withdraw_method),
    ]
}

/// The answers after recording the verdicts in order into `t`.
pub open spec fn score_financial(
    t: Seq<QaView>,
    verdicts: Seq<(Seq<char>, i32)>,
    submitted: Seq<Seq<char>>,
    questions: Seq<(String, Question)>,
    empty_score: i32,
) -> Seq<QaView>
    decreases verdicts.len(),
{
    if verdicts.len() == 0 {
        t
    } else {
        let t0 = score_financial(t, verdicts.drop_last(), submitted, questions, empty_score);
        let v = verdicts.last();
        match financial_answer(v.0, v.1, submitted, questions, empty_score) {
            Some(qa) => qa_upsert(t0, qa),
            None => t0,
        }
    }
}

/// Recording `q` makes it the answer for its field id and leaves every other
/// field id's answer as it was.
proof fn lemma_qa_at_upsert(s: Seq<QaView>, q: QaView)
    ensures
        qa_at(qa_upsert(s, q), q.field_id) == Some(q),
        forall|k: Seq<char>| k != q.field_id ==> #[trigger] qa_at(qa_upsert(s, q), k) == qa_at(s, k),
{
    let u = qa_upsert(s, q);
    lemma_qa_index_bounds(s, q.field_id);
    lemma_qa_index_bounds(u, q.field_id);
    match qa_index(s, q.field_id) {
        Some(p) => {
            assert(u[p] == q);
            match qa_index(u, q.field_id) {
                Some(i2) => {
                    if i2 < p {
                        assert(u[i2] == s[i2]);
                    }
                },
                None => {},
            }
        },
        None => {
            assert(u[s.len() as int] == q);
            match qa_index(u, q.field_id) {
                Some(i2) => {
                    if i2 < s.len() {
                        assert(u[i2] == s[i2]);
                    }
                },
                None => {},
            }
        },
    }
    assert forall|k: Seq<char>| k != q.field_id implies #[trigger] qa_at(u, k) == qa_at(s, k) by {
        lemma_qa_index_bounds(s, k);
        lemma_qa_index_bounds(u, k);
        match qa_index(s, q.field_id) {
            Some(p) => {
                assert(u.len() == s.len());
                assert forall|j: int| 0 <= j < s.len() && j != p implies u[j] == s[j] by {}
                match qa_index(s, k) {
                    Some(i) => {
                        assert(i != p);
                        match qa_index(u, k) {
                            Some(i2) => {
                                assert(i2 != p);
                                if i2 < i {
                                    assert(s[i2].field_id == k);
                                } else if i < i2 {
                                    assert(u[i].field_id == k);
                                }
                            },
                            None => {
                                assert(u[i].field_id == k);
                            },
                        }
                    },
                    None => {
                        match qa_index(u, k) {
                            Some(i2) => {
                                assert(i2 != p);
                                assert(s[i2].field_id == k);
                            },
                            None => {},
                        }
                    },
                }
            },
            None => {
                assert(u.len() == s.len() + 1);
                assert forall|j: int| 0 <= j < s.len() implies u[j] == s[j] by {}
                match qa_index(s, k) {
                    Some(i) => {
                        match qa_index(u, k) {
                            Some(i2) => {
                                if i2 < i {
                                    assert(s[i2].field_id == k);
                                } else if i < i2 {
                                    assert(u[i].field_id == k);
                                }
                            },
                            None => {
                                assert(u[i].field_id == k);
                            },
                        }
                    },
                    None => {
                        match qa_index(u, k) {
                            Some(i2) => {
                                if i2 < s.len() {
                                    assert(s[i2].field_id == k);
                                } else {
                                    assert(u[i2] == q);
                                }
                            },
                            None => {},
                        }
                    },
                }
            },
        }
    }
}

/// Recording verdicts none of which is for `key` leaves its answer as it was.
proof fn lemma_score_financial_absent(
    t: Seq<QaView>,
    verdicts: Seq<(Seq<char>, i32)>,
    key: Seq<char>,
    submitted: Seq<Seq<char>>,
    questions: Seq<(String, Question)>,
    empty_score: i32,
)
    requires
        forall|j: int| 0 <= j < verdicts.len() ==> (#[trigger] verdicts[j]).0 != key,
    ensures
        qa_at(score_financial(t, verdicts, submitted, questions, empty_score), key) == qa_at(t, key),
    decreases verdicts.len(),
{
    if verdicts.len() > 0 {
        let rest = verdicts.drop_last();
        assert forall|j: int| 0 <= j < rest.len() implies (#[trigger] rest[j]).0 != key by {
            assert(rest[j] == verdicts[j]);
        }
        lemma_score_financial_absent(t, rest, key, submitted, questions, empty_score);
        let t0 = score_financial(t, rest, submitted, questions, empty_score);
        let v = verdicts.last();
        assert(v == verdicts[verdicts.len() - 1]);
        match financial_answer(v.0, v.1, submitted, questions, empty_score) {
            Some(qa) => {
                lemma_qa_at_upsert(t0, qa);
            },
            None => {},
        }
    }
}

/// Recording verdicts among which `k` is the only one for its field id
/// leaves, for that field id, the answer built from that verdict (or the
/// answer as it was, where none is built).
proof fn lemma_score_financial_key(
    t: Seq<QaView>,
    verdicts: Seq<(Seq<char>, i32)>,
    k: int,
    submitted: Seq<Seq<char>>,
    questions: Seq<(String, Question)>,
    empty_score: i32,
)
    requires
        0 <= k < verdicts.len(),
        forall|j: int| 0 <= j < verdicts.len() && j != k ==> (#[trigger] verdicts[j]).0 != verdicts[k].0,
    ensures
        qa_at(score_financial(t, verdicts, submitted, questions, empty_score), verdicts[k].0) == match financial_answer(
            verdicts[k].0,
            verdicts[k].1,
            submitted,
            questions,
            empty_score,
        ) {
            Some(a) => Some(a),
            None => qa_at(t, verdicts[k].0),
        },
    decreases verdicts.len(),
{
    let key = verdicts[k].0;
    let rest = verdicts.drop_last();
    let t0 = score_financial(t, rest, submitted, questions, empty_score);
    let v = verdicts.last();
    assert(v == verdicts[verdicts.len() - 1]);
    if k == verdicts.len() - 1 {
        assert forall|j: int| 0 <= j < rest.len() implies (#[trigger] rest[j]).0 != key by {
            assert(rest[j] == verdicts[j]);
        }
        lemma_score_financial_absent(t, rest, key, submitted, questions, empty_score);
        match financial_answer(v.0, v.1, submitted, questions, empty_score) {
            Some(qa) => {
                lemma_qa_at_upsert(t0, qa);
            },
            None => {},
        }
    } else {
        assert(rest[k] == verdicts[k]);
        assert forall|j: int| 0 <= j < rest.len() && j != k implies (#[trigger] rest[j]).0 != rest[k].0 by {
            assert(rest[j] == verdicts[j]);
        }
        lemma_score_financial_key(t, rest, k, submitted, questions, empty_score);
        match financial_answer(v.0, v.1, submitted, questions, empty_score) {
            Some(qa) => {
                lemma_qa_at_upsert(t0, qa);
            },
            None => {},
        }
    }
}

/// What MCS's verdict `raw` on the answer to `field_id` leaves in the table
/// `r` recorded from `t`: when the player submitted the field and the
/// merchant configured it, an answer that is correct for a 3 (matched) or a
/// 2 (both empty), scoring the question's score for a 3, the merchant's
/// empty score for a 2 and nothing otherwise; else the answer as it was.
pub open spec fn mcs_verdict_recorded(
    r: Seq<QaView>,
    t: Seq<QaView>,
    field_id: Seq<char>,
    raw: i32,
    submitted: Seq<Seq<char>>,
    questions: Seq<(String, Question)>,
    empty_score: i32,
) -> bool {
    match question_at(questions, field_id) {
        Some(q) => if submitted.contains(field_id) {
            qa_at(r, field_id) == Some(
                QaView {
                    field_id,
                    field_type: q.field_type@,
                    correct: raw == 3 || raw == 2,
                    score: if raw == 3 {
                        q.score as int
                    } else if raw == 2 {
                        empty_score as int
                    } else {
                        0
                    },
                    total_score: q.score as int,
                },
            )
        } else {
            qa_at(r, field_id) == qa_at(t, field_id)
        },
        None => qa_at(r, field_id) == qa_at(t, field_id),
    }
}

/// Each financial and history answer is judged by MCS's verdict on that very
/// field: the bank account by `bc_number`, the card holder by
/// `bc_holder_name`, the e-wallet account and name by `ew_account` and
/// `ew_holder_name`, the virtual wallet address and name by `vw_address` and
/// `vw_holder_name`, and each last-deposit and last-withdrawal answer by the
/// history verdict of the same name.
#[verifier::rlimit(50)]
pub proof fn lemma_mcs_verdicts_per_field(
    r: Seq<QaView>,
    t: Seq<QaView>,
    resp: VerifyFinanceHistoryResp,
    submitted: Seq<Seq<char>>,
    questions: Seq<(String, Question)>,
    empty_score: i32,
)
    requires
        r == score_financial(t, financial_verdicts(resp), submitted, questions, empty_score),
    ensures
        mcs_verdict_recorded(r, t, "BANK_ACCOUNT"@, resp.value.verify_player_finance_info.bc_number, submitted, questions, empty_score),
        mcs_verdict_recorded(r, t, "CARD_HOLDER_NAME"@, resp.value.verify_player_finance_info.bc_holder_name, submitted, questions, empty_score),
        mcs_verdict_recorded(r, t, "E_WALLET_ACCOUNT"@, resp.value.verify_player_finance_info.ew_account, submitted, questions, empty_score),
        mcs_verdict_recorded(r, t, "E_WALLET_NAME"@, resp.value.verify_player_finance_info.ew_holder_name, submitted, questions, empty_score),
        mcs_verdict_recorded(r, t, "VIRTUAL_WALLET_ADDRESS"@, resp.value.verify_player_finance_info.vw_address, submitted, questions, empty_score),
        mcs_verdict_recorded(r, t, "VIRTUAL_WALLET_NAME"@, resp.value.verify_player_finance_info.vw_holder_name, submitted, questions, empty_score),
        mcs_verdict_recorded(r, t, "LAST_DEPOSIT_AMOUNT"@, resp.value.verify_player_history_info.last_deposit_amount, submitted, questions, empty_score),
        mcs_verdict_recorded(r, t, "LAST_DEPOSIT_TIME"@, resp.value.verify_player_history_info.last_deposit_time, submitted, questions, empty_score),
        mcs_verdict_recorded(r, t, "LAST_DEPOSIT_METHOD"@, resp.value.verify_player_history_info.last_deposit_method, submitted, questions, empty_score),
        mcs_verdict_recorded(r, t, "LAST_WITHDRAWAL_AMOUNT"@, resp.value.verify_player_history_info.last_withdraw_amount, submitted, questions, empty_score),
        mcs_verdict_recorded(r, t, "LAST_WITHDRAWAL_TIME"@, resp.value.verify_player_history_info.last_withdraw_time, submitted, questions, empty_score),
        mcs_verdict_recorded(r, t, "LAST_WITHDRAWAL_METHOD"@, resp.value.verify_player_history_info.last_withdraw_method, submitted, questions, empty_score),
{
    reveal_strlit("BANK_ACCOUNT");
    assert(text_sig("BANK_ACCOUNT"@) == (12nat, 'B', 'A', 'T'));
    reveal_strlit("CARD_HOLDER_NAME");
    assert(text_sig("CARD_HOLDER_NAME"@) == (16nat, 'C', 'A', 'E'));
    reveal_strlit("E_WALLET_ACCOUNT");
    assert(text_sig("E_WALLET_ACCOUNT"@) == (16nat, 'E', '_', 'T'));
    reveal_strlit("E_WALLET_NAME");
    assert(text_sig("E_WALLET_NAME"@) == (13nat, 'E', '_', 'E'));
    reveal_strlit("VIRTUAL_WALLET_ADDRESS");
    assert(text_sig("VIRTUAL_WALLET_ADDRESS"@) == (22nat, 'V', 'I', 'S'));
    reveal_strlit("VIRTUAL_WALLET_NAME");
    assert(text_sig("VIRTUAL_WALLET_NAME"@) == (19nat, 'V', 'I', 'E'));
    reveal_strlit("LAST_DEPOSIT_AMOUNT");
    assert(text_sig("LAST_DEPOSIT_AMOUNT"@) == (19nat, 'L', 'A', 'T'));
    reveal_strlit("LAST_DEPOSIT_TIME");
    assert(text_sig("LAST_DEPOSIT_TIME"@) == (17nat, 'L', 'A', 'E'));
    reveal_strlit("LAST_DEPOSIT_METHOD");
    assert(text_sig("LAST_DEPOSIT_METHOD"@) == (19nat, 'L', 'A', 'D'));
    reveal_strlit("LAST_WITHDRAWAL_AMOUNT");
    assert(text_sig("LAST_WITHDRAWAL_AMOUNT"@) == (22nat, 'L', 'A', 'T'));
    reveal_strlit("LAST_WITHDRAWAL_TIME");
    assert(text_sig("LAST_WITHDRAWAL_TIME"@) == (20nat, 'L', 'A', 'E'));
    reveal_strlit("LAST_WITHDRAWAL_METHOD");
    assert(text_sig("LAST_WITHDRAWAL_METHOD"@) == (22nat, 'L', 'A', 'D'));
    let v = financial_verdicts(resp);
    assert forall|i: int, j: int| 0 <= i < 12 && 0 <= j < 12 && i != j implies #[trigger] v[i].0 != #[trigger] v[j].0 by {
        assert(text_sig(v[i].0) != text_sig(v[j].0));
    }
    lemma_score_financial_key(t, v, 0, submitted, questions, empty_score);
    lemma_score_financial_key(t, v, 1, submitted, questions, empty_score);
    lemma_score_financial_key(t, v, 2, submitted, questions, empty_score);
    lemma_score_financial_key(t, v, 3, submitted, questions, empty_score);
    lemma_score_financial_key(t, v, 4, submitted, questions, empty_score);
    lemma_score_financial_key(t, v, 5, submitted, questions, empty_score);
    lemma_score_financial_key(t, v, 6, submitted, questions, empty_score);
    lemma_score_financial_key(t, v, 7, submitted, questions, empty_score);
    lemma_score_financial_key(t, v, 8, submitted, questions, empty_score);
    lemma_score_financial_key(t, v, 9, submitted, questions, empty_score);
    lemma_score_financial_key(t, v, 10, submitted, questions, empty_score);
    lemma_score_financial_key(t, v, 11, submitted, questions, empty_score);
}

/// Records MCS's verdicts on the financial and history fields the player
/// submitted and the merchant configured.
pub fn calculate_score_for_financial_history(
    submitted_field_ids: &Vec<String>,
    resp: &VerifyFinanceHistoryResp,
    rule_cfg: &MerchantRuleConfig,
    qa_map: &mut QaTable,
    field_id_map_cfg: &QuestionMap,
)
    ensures
        final(qa_map)@ == score_financial(
            old(qa_map)@,
            financial_verdicts(*resp),
            texts(submitted_field_ids@),
            field_id_map_cfg.entries@,
            rule_cfg.empty_score,
        ),
{
    let empty_score = rule_cfg.empty_score;
    let f = &resp.value.verify_player_finance_info;
    let h = &resp.value.verify_player_history_info;
    let score_fields: Vec<(&str, i32)> = vec![
        ("BANK_ACCOUNT", f.bc_number),
        ("CARD_HOLDER_NAME", f.bc_holder_name),
        ("E_WALLET_ACCOUNT", f.ew_account),
        ("E_WALLET_NAME", f.ew_holder_name),
        ("VIRTUAL_WALLET_ADDRESS", f.vw_address),
        ("VIRTUAL_WALLET_NAME", f.vw_holder_name),
        ("LAST_DEPOSIT_AMOUNT", h.last_deposit_amount),
        ("LAST_DEPOSIT_TIME", h.last_deposit_time),
        ("LAST_DEPOSIT_METHOD", h.last_deposit_method),
        ("LAST_WITHDRAWAL_AMOUNT", h.last_withdraw_amount),
        ("LAST_WITHDRAWAL_TIME", h.last_withdraw_time),
        ("LAST_WITHDRAWAL_METHOD", h.last_withdraw_method),
    ];
    let ghost verdicts = financial_verdicts(*resp);
    let ghost submitted = texts(submitted_field_ids@);
    assert(score_fields@.map_values(|p: (&str, i32)| (p.0@, p.1)) =~= verdicts);
    let mut i: usize = 0;
    while i < score_fields.len()
        invariant
            i <= score_fields.len(),
            empty_score == rule_cfg.empty_score,
            score_fields@.map_values(|p: (&str, i32)| (p.0@, p.1)) == verdicts,
            submitted == texts(submitted_field_ids@),
            qa_map@ == score_financial(
                old(qa_map)@,
                verdicts.subrange(0, i as int),
                submitted,
                field_id_map_cfg.entries@,
                empty_score,
            ),
        decreases score_fields.len() - i,
    {
        let (field_id, raw_score) = score_fields[i];
        proof {
            assert(verdicts.subrange(0, (i + 1) as int).drop_last() =~= verdicts.subrange(0, i as int));
            assert(verdicts[i as int] == (field_id@, raw_score));
        }
        match field_id_map_cfg.get(field_id) {
            None => {},
            Some(q) => {
                if contains_text(submitted_field_ids, field_id) {
                    proof {
                        let j = choose|j: int| 0 <= j < submitted_field_ids.len() && #[trigger] submitted_field_ids@[j]@ == field_id@;
                        assert(submitted[j] == field_id@);
                    }
                    let correct = raw_score == 3 || raw_score == 2;
                    let score: i32 = if raw_score == 3 {
                        q.score
                    } else if raw_score == 2 {
                        empty_score
                    } else {
                        0
                    };
                    let qa = QA {
                        field_id: owned(field_id),
                        field_type: q.field_type.clone(),
                        correct,
                        score,
                        total_score: q.score,
                    };
                    qa_map.insert(qa);
                } else {
                    proof {
                        assert forall|j: int| 0 <= j < submitted.len() implies submitted[j] != field_id@ by {
                            assert(submitted[j] == submitted_field_ids@[j]@);
                        }
                    }
                }
            },
        }
        i = i + 1;
    }
    assert(verdicts.subrange(0, 12) =~= verdicts);
}

} // verus!
