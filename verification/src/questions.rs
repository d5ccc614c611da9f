//! Building the question list a player is shown: the merchant's valid
//! questions, named in the player's language, with dropdown options for
//! dropdown fields, sorted by field id.
use vstd::prelude::*;
use crate::model::{copy_dropdown_list, DropdownItem, FieldIdTranslation, Question, QuestionInfo, QuestionMap};
use crate::order::{lemma_str_le_transitive, lemma_str_lt_asymmetric, str_le, str_less, str_lt};
use crate::scoring::{is_blocked_field, is_blocked_id};
use crate::error::AppError;
use crate::text::{concat, str_eq};

verus! {

broadcast use vstd::seq_lib::group_to_multiset_ensures;

impl View for DropdownItem {
    type V = (Seq<char>, i64);

    open spec fn view(&self) -> (Seq<char>, i64) {
        (self.dropdown_value@, self.dropdown_id)
    }
}

/// A question as shown, by its text.
pub struct QuestionInfoView {
    pub field_id: Seq<char>,
    pub field_name: Seq<char>,
    pub field_attribute: Seq<char>,
    pub field_type: Seq<char>,
    pub dropdown: Option<Seq<(Seq<char>, i64)>>,
}

/// The dropdown options by their text.
pub open spec fn dropdown_view(v: Seq<DropdownItem>) -> Seq<(Seq<char>, i64)> {
    v.map_values(|d: DropdownItem| d@)
}

impl View for QuestionInfo {
    type V = QuestionInfoView;

    open spec fn view(&self) -> QuestionInfoView {
        QuestionInfoView {
            field_id: self.field_id@,
            field_name: self.field_name@,
            field_attribute: self.field_attribute@,
            field_type: self.field_type@,
            dropdown: match self.field_dropdown_list {
                Some(v) => Some(dropdown_view(v@)),
                None => None,
            },
        }
    }
}

/// A merchant's dropdown options, by field id.
pub struct DropdownTable {
    pub entries: Vec<(String, Vec<DropdownItem>)>,
}

/// The options stored last for `key`.
pub open spec fn dropdown_at(s: Seq<(String, Vec<DropdownItem>)>, key: Seq<char>) -> Option<Seq<(Seq<char>, i64)>>
    decreases s.len(),
{
    if s.len() == 0 {
        None
    } else if s.last().0@ == key {
        Some(dropdown_view(s.last().1@))
    } else {
        dropdown_at(s.drop_last(), key)
    }
}

impl DropdownTable {
    /// A copy of the options for `key`.
    pub fn get(&self, key: &str) -> (r: Option<Vec<DropdownItem>>)
        ensures
            match r {
                Some(v) => dropdown_at(self.entries@, key@) == Some(dropdown_view(v@)),
                None => dropdown_at(self.entries@, key@) is None,
            },
    {
        let mut i: usize = self.entries.len();
        assert(self.entries@.subrange(0, self.entries.len() as int) =~= self.entries@);
        while i > 0
            invariant
                i <= self.entries.len(),
                dropdown_at(self.entries@, key@) == dropdown_at(self.entries@.subrange(0, i as int), key@),
            decreases i,
        {
            let ghost pre = self.entries@.subrange(0, i as int);
            assert(pre.drop_last() =~= self.entries@.subrange(0, i - 1));
            if str_eq(self.entries[i - 1].0.as_str(), key) {
                return Some(copy_dropdown_list(&self.entries[i - 1].1));
            }
            i = i - 1;
        }
        None
    }
}

/// The translation stored last for `field_id`.
pub open spec fn translation_at(s: Seq<FieldIdTranslation>, field_id: Seq<char>) -> Option<Seq<char>>
    decreases s.len(),
{
    if s.len() == 0 {
        None
    } else if s.last().field_id@ == field_id {
        Some(s.last().field_translation@)
    } else {
        translation_at(s.drop_last(), field_id)
    }
}

/// The translation of `field_id`, if one is given.
pub fn find_translation(s: &Vec<FieldIdTranslation>, field_id: &str) -> (r: Option<String>)
    ensures
        match r {
            Some(t) => translation_at(s@, field_id@) == Some(t@),
            None => translation_at(s@, field_id@) is None,
        },
{
    let mut i: usize = s.len();
    assert(s@.subrange(0, s.len() as int) =~= s@);
    while i > 0
        invariant
            i <= s.len(),
            translation_at(s@, field_id@) == translation_at(s@.subrange(0, i as int), field_id@),
        decreases i,
    {
        let ghost pre = s@.subrange(0, i as int);
        assert(pre.drop_last() =~= s@.subrange(0, i - 1));
        if str_eq(s[i - 1].field_id.as_str(), field_id) {
            return Some(s[i - 1].field_translation.clone());
        }
        i = i - 1;
    }
    None
}

/// The translations of each language, under the language codes of the JSON
/// object they were read from.
pub struct TranslationsByLanguage {
    pub entries: Vec<(String, Vec<FieldIdTranslation>)>,
}

/// The translations listed first under `language`.
pub open spec fn language_list(s: Seq<(String, Vec<FieldIdTranslation>)>, language: Seq<char>) -> Option<Seq<FieldIdTranslation>>
    decreases s.len(),
{
    if s.len() == 0 {
        None
    } else if s[0].0@ == language {
        Some(s[0].1@)
    } else {
        language_list(s.drop_first(), language)
    }
}

/// The translations for `language`, falling back to English (`EN`), else none.
pub open spec fn translations_for(s: Seq<(String, Vec<FieldIdTranslation>)>, language: Seq<char>) -> Seq<FieldIdTranslation> {
    match language_list(s, language) {
        Some(l) => l,
        None => match language_list(s, "EN"@) {
            Some(l) => l,
            None => Seq::empty(),
        },
    }
}

fn copy_translations(v: &Vec<FieldIdTranslation>) -> (r: Vec<FieldIdTranslation>)
    ensures
        r@ == v@,
{
    let mut r: Vec<FieldIdTranslation> = Vec::new();
    let mut i: usize = 0;
    while i < v.len()
        invariant
            i <= v.len(),
            r@ == v@.subrange(0, i as int),
        decreases v.len() - i,
    {
        r.push(
            FieldIdTranslation {
                field_id: v[i].field_id.clone(),
                field_translation: v[i].field_translation.clone(),
            },
        );
        assert(v@.subrange(0, (i + 1) as int) =~= v@.subrange(0, i as int).push(v@[i as int]));
        i = i + 1;
    }
    assert(v@.subrange(0, v.len() as int) =~= v@);
    r
}

fn find_language(s: &Vec<(String, Vec<FieldIdTranslation>)>, language: &str) -> (r: Option<usize>)
    ensures
        match r {
            Some(i) => i < s.len() && language_list(s@, language@) == Some(s@[i as int].1@),
            None => language_list(s@, language@) is None,
        },
{
    let mut i: usize = 0;
    assert(s@.subrange(0, s.len() as int) =~= s@);
    while i < s.len()
        invariant
            i <= s.len(),
            language_list(s@, language@) == language_list(s@.subrange(i as int, s.len() as int), language@),
        decreases s.len() - i,
    {
        let ghost rest = s@.subrange(i as int, s.len() as int);
        assert(rest.drop_first() =~= s@.subrange(i + 1, s.len() as int));
        if str_eq(s[i].0.as_str(), language) {
            return Some(i);
        }
        i = i + 1;
    }
    None
}

impl TranslationsByLanguage {
    /// The field-name translations for `language`, falling back to English.
    pub fn get_translations_by_language(&self, language: &str) -> (r: Vec<FieldIdTranslation>)
        ensures
            r@ == translations_for(self.entries@, language@),
    {
        match find_language(&self.entries, language) {
            Some(i) => copy_translations(&self.entries[i].1),
            None => match find_language(&self.entries, "EN") {
                Some(i) => copy_translations(&self.entries[i].1),
                None => Vec::new(),
            },
        }
    }
}

// ── The question list ────────────────────────────────────────────────────────

/// A question the player is shown: valid, with a field id that is not blocked.
pub open spec fn is_listed(q: Question) -> bool {
    q.valid && q.field_id@.len() > 0 && !is_blocked_id(q.field_id@)
}

/// How a listed question is shown: under its translated name if there is
/// one, with the merchant's options when it is a dropdown (`DD`) field.
pub open spec fn shown_info(
    q: Question,
    dd: Option<Seq<(String, Vec<DropdownItem>)>>,
    translations: Seq<FieldIdTranslation>,
) -> QuestionInfoView {
    QuestionInfoView {
        field_id: q.field_id@,
        field_name: match translation_at(translations, q.field_id@) {
            Some(t) => t,
            None => q.field_name@,
        },
        field_attribute: q.field_attribute@,
        field_type: q.field_type@,
        dropdown: if q.field_attribute@ == "DD"@ {
            match dd {
                Some(t) => dropdown_at(t, q.field_id@),
                None => None,
            }
        } else {
            None
        },
    }
}

/// The listed questions of `entries`, as shown, in configuration order.
pub open spec fn listed_infos(
    entries: Seq<(String, Question)>,
    dd: Option<Seq<(String, Vec<DropdownItem>)>>,
    translations: Seq<FieldIdTranslation>,
) -> Seq<QuestionInfoView>
    decreases entries.len(),
{
    if entries.len() == 0 {
        Seq::empty()
    } else {
        let rest = listed_infos(entries.drop_last(), dd, translations);
        let q = entries.last().1;
        if is_listed(q) {
            rest.push(shown_info(q, dd, translations))
        } else {
            rest
        }
    }
}

/// Sorted by field id, equal ids in any order.
pub open spec fn sorted_by_field_id(s: Seq<QuestionInfoView>) -> bool {
    forall|i: int, j: int| 0 <= i < j < s.len() ==> str_le(s[i].field_id, s[j].field_id)
}

proof fn lemma_insert_multiset<A>(s: Seq<A>, p: int, x: A)
    requires
        0 <= p <= s.len(),
    ensures
        s.insert(p, x).to_multiset() =~= s.to_multiset().insert(x),
{
    let t = s.insert(p, x);
    s.insert_ensures(p, x);
    assert(t.remove(p) =~= s);
    assert(t[p] == x);
    assert(t.remove(p).to_multiset() =~= t.to_multiset().remove(x));
    assert(t.contains(x));
}

/// Whether `r` is the question list of `questions`: a `ParseJsonFailed`
/// naming the merchant when there is no configuration, else the listed
/// questions as shown, sorted by field id.
pub open spec fn infos_answer(
    r: Result<Vec<QuestionInfo>, AppError>,
    questions: Option<Seq<(String, Question)>>,
    merchant_code: Seq<char>,
    dd: Option<Seq<(String, Vec<DropdownItem>)>>,
    translations: Seq<FieldIdTranslation>,
) -> bool {
    match questions {
        None => r matches Err(AppError::ParseJsonFailed(m)) && m@ == "merchantCode="@ + merchant_code,
        Some(entries) => r is Ok && sorted_by_field_id(r->Ok_0@.map_values(|i: QuestionInfo| i@))
            && r->Ok_0@.map_values(|i: QuestionInfo| i@).to_multiset() == listed_infos(entries, dd, translations).to_multiset(),
    }
}

proof fn lemma_listed_infos_members(
    entries: Seq<(String, Question)>,
    dd: Option<Seq<(String, Vec<DropdownItem>)>>,
    translations: Seq<FieldIdTranslation>,
)
    ensures
        forall|k: int| 0 <= k < listed_infos(entries, dd, translations).len()
            ==> !is_blocked_id(#[trigger] listed_infos(entries, dd, translations)[k].field_id),
        forall|j: int| 0 <= j < entries.len() && is_listed(#[trigger] entries[j].1)
            ==> listed_infos(entries, dd, translations).contains(shown_info(entries[j].1, dd, translations)),
    decreases entries.len(),
{
    if entries.len() > 0 {
        let rest = entries.drop_last();
        lemma_listed_infos_members(rest, dd, translations);
        let l0 = listed_infos(rest, dd, translations);
        let l = listed_infos(entries, dd, translations);
        assert forall|k: int| 0 <= k < l.len() implies !is_blocked_id(#[trigger] l[k].field_id) by {
            if k < l0.len() {
                assert(l[k] == l0[k]);
            }
        }
        assert forall|j: int| 0 <= j < entries.len() && is_listed(#[trigger] entries[j].1)
            implies l.contains(shown_info(entries[j].1, dd, translations)) by {
            if j < rest.len() {
                assert(entries[j] == rest[j]);
                let k = choose|k: int| 0 <= k < l0.len() && l0[k] == shown_info(rest[j].1, dd, translations);
                assert(l[k] == l0[k]);
            } else {
                assert(l[l.len() - 1] == shown_info(entries[j].1, dd, translations));
            }
        }
    }
}

/// The question list never shows the last-deposit or last-withdrawal
/// questions (amount, time, method), which MCS scores; every other valid
/// question with a field id is shown.
pub proof fn lemma_question_list_hides_history_fields(
    r: Result<Vec<QuestionInfo>, AppError>,
    entries: Seq<(String, Question)>,
    merchant_code: Seq<char>,
    dd: Option<Seq<(String, Vec<DropdownItem>)>>,
    translations: Seq<FieldIdTranslation>,
)
    requires
        infos_answer(r, Some(entries), merchant_code, dd, translations),
    ensures
        r is Ok,
        forall|i: int| 0 <= i < r->Ok_0.len() ==> {
            let f = #[trigger] r->Ok_0@[i].field_id@;
            f != "LAST_DEPOSIT_AMOUNT"@ && f != "LAST_DEPOSIT_TIME"@ && f != "LAST_DEPOSIT_METHOD"@ && f != "LAST_WITHDRAWAL_AMOUNT"@ && f != "LAST_WITHDRAWAL_TIME"@ && f != "LAST_WITHDRAWAL_METHOD"@
        },
        forall|j: int| 0 <= j < entries.len() && (#[trigger] entries[j].1).valid && entries[j].1.field_id@.len() > 0 && {
            let f = entries[j].1.field_id@;
            f != "LAST_DEPOSIT_AMOUNT"@ && f != "LAST_DEPOSIT_TIME"@ && f != "LAST_DEPOSIT_METHOD"@ && f != "LAST_WITHDRAWAL_AMOUNT"@ && f != "LAST_WITHDRAWAL_TIME"@ && f != "LAST_WITHDRAWAL_METHOD"@
        } ==> exists|i: int| 0 <= i < r->Ok_0.len() && r->Ok_0@[i].field_id@ == entries[j].1.field_id@,
{
    let v = r->Ok_0@.map_values(|x: QuestionInfo| x@);
    let l = listed_infos(entries, dd, translations);
    lemma_listed_infos_members(entries, dd, translations);
    assert forall|i: int| 0 <= i < r->Ok_0.len() implies {
        let f = #[trigger] r->Ok_0@[i].field_id@;
        f != "LAST_DEPOSIT_AMOUNT"@ && f != "LAST_DEPOSIT_TIME"@ && f != "LAST_DEPOSIT_METHOD"@ && f != "LAST_WITHDRAWAL_AMOUNT"@ && f != "LAST_WITHDRAWAL_TIME"@ && f != "LAST_WITHDRAWAL_METHOD"@
    } by {
        assert(v[i] == r->Ok_0@[i]@);
        assert(v.contains(v[i]));
        assert(v.to_multiset().count(v[i]) > 0);
        assert(l.to_multiset().count(v[i]) > 0);
        assert(l.contains(v[i]));
        let k = choose|k: int| 0 <= k < l.len() && l[k] == v[i];
        assert(!is_blocked_id(l[k].field_id));
    }
    assert forall|j: int| 0 <= j < entries.len() && (#[trigger] entries[j].1).valid && entries[j].1.field_id@.len() > 0 && {
        let f = entries[j].1.field_id@;
        f != "LAST_DEPOSIT_AMOUNT"@ && f != "LAST_DEPOSIT_TIME"@ && f != "LAST_DEPOSIT_METHOD"@ && f != "LAST_WITHDRAWAL_AMOUNT"@ && f != "LAST_WITHDRAWAL_TIME"@ && f != "LAST_WITHDRAWAL_METHOD"@
    } implies exists|i: int| 0 <= i < r->Ok_0.len() && r->Ok_0@[i].field_id@ == entries[j].1.field_id@ by {
        let x = shown_info(entries[j].1, dd, translations);
        assert(is_listed(entries[j].1));
        assert(l.contains(x));
        assert(l.to_multiset().count(x) > 0);
        assert(v.to_multiset().count(x) > 0);
        assert(v.contains(x));
        let i = choose|i: int| 0 <= i < v.len() && v[i] == x;
        assert(v[i] == r->Ok_0@[i]@);
    }
}

/// The questions the player is shown, sorted by field id. `questions` is
/// `None` when the merchant's configuration is empty or cannot be read;
/// `dd` is the merchant's dropdown options, if the cache holds them.
pub fn get_valid_question_infos(
    questions: Option<&QuestionMap>,
    merchant_code: &str,
    dd: Option<&DropdownTable>,
    translations: &Vec<FieldIdTranslation>,
) -> (r: Result<Vec<QuestionInfo>, AppError>)
    ensures
        infos_answer(
            r,
            match questions {
                Some(qm) => Some(qm.entries@),
                None => None,
            },
            merchant_code@,
            match dd {
                Some(t) => Some(t.entries@),
                None => None,
            },
            translations@,
        ),
{
    let qm = match questions {
        None => {
            return Err(AppError::ParseJsonFailed(concat("merchantCode=", merchant_code)));
        },
        Some(qm) => qm,
    };
    let ghost dd_view: Option<Seq<(String, Vec<DropdownItem>)>> = match dd {
        Some(t) => Some(t.entries@),
        None => None,
    };
    let mut result: Vec<QuestionInfo> = Vec::new();
    let mut i: usize = 0;
    while i < qm.entries.len()
        invariant
            i <= qm.entries.len(),
            dd_view == (match dd {
                Some(t) => Some(t.entries@),
                None => None::<Seq<(String, Vec<DropdownItem>)>>,
            }),
            sorted_by_field_id(result@.map_values(|x: QuestionInfo| x@)),
            result@.map_values(|x: QuestionInfo| x@).to_multiset() == listed_infos(
                qm.entries@.subrange(0, i as int),
                dd_view,
                translations@,
            ).to_multiset(),
        decreases qm.entries.len() - i,
    {
        let q = &qm.entries[i].1;
        let ghost pre = qm.entries@.subrange(0, i as int);
        proof {
            assert(qm.entries@.subrange(0, (i + 1) as int).drop_last() =~= pre);
            assert(qm.entries@.subrange(0, (i + 1) as int).last().1 == *q);
        }
        if q.valid && !q.field_id.as_str().is_empty() && !is_blocked_field(q.field_id.as_str()) {
            let dropdown: Option<Vec<DropdownItem>> = if str_eq(q.field_attribute.as_str(), "DD") {
                match dd {
                    Some(t) => t.get(q.field_id.as_str()),
                    None => None,
                }
            } else {
                None
            };
            let field_name = match find_translation(translations, q.field_id.as_str()) {
                Some(t) => t,
                None => q.field_name.clone(),
            };
            let info = QuestionInfo {
                field_id: q.field_id.clone(),
                field_name,
                field_attribute: q.field_attribute.clone(),
                field_type: q.field_type.clone(),
                field_dropdown_list: dropdown,
            };
            assert(info@ == shown_info(*q, dd_view, translations@));
            // Insert after every entry whose field id does not sort after this one.
            let mut p: usize = 0;
            let ghost before = result@.map_values(|x: QuestionInfo| x@);
            while p < result.len() && !str_less(info.field_id.as_str(), result[p].field_id.as_str())
                invariant
                    p <= result.len(),
                    before == result@.map_values(|x: QuestionInfo| x@),
                    sorted_by_field_id(before),
                    forall|k: int| 0 <= k < p ==> str_le(before[k].field_id, info.field_id@),
                decreases result.len() - p,
            {
                assert(before[p as int] == result@[p as int]@);
                p = p + 1;
            }
            proof {
                if p < result.len() {
                    assert(before[p as int] == result@[p as int]@);
                    assert(str_lt(info.field_id@, before[p as int].field_id));
                }
            }
            result.insert(p, info);
            proof {
                let after = result@.map_values(|x: QuestionInfo| x@);
                assert(after =~= before.insert(p as int, info@));
                lemma_insert_multiset(before, p as int, info@);
                before.insert_ensures(p as int, info@);
                assert forall|a: int, b: int| 0 <= a < b < after.len() implies str_le(
                    after[a].field_id,
                    after[b].field_id,
                ) by {
                    if a < p && b < p {
                    } else if a < p && b == p {
                    } else if a < p && b > p {
                        assert(after[a] == before[a]);
                        assert(after[b] == before[b - 1]);
                    } else if a == p {
                        assert(after[b] == before[b - 1]);
                        assert(str_lt(info@.field_id, before[p as int].field_id));
                        lemma_str_lt_asymmetric(info@.field_id, before[p as int].field_id);
                        if b - 1 > p {
                            lemma_str_le_transitive(info@.field_id, before[p as int].field_id, before[b - 1].field_id);
                        }
                    } else {
                        assert(after[a] == before[a - 1]);
                        assert(after[b] == before[b - 1]);
                    }
                }
            }
        }
        i = i + 1;
    }
    assert(qm.entries@.subrange(0, qm.entries.len() as int) =~= qm.entries@);
    Ok(result)
}

} // verus!
