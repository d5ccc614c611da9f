//! Domain records: merchant question configuration, the question list shown
//! to players, and the per-question answers kept in a validation record.
use vstd::prelude::*;
use crate::text::str_eq;

verus! {

/// A dropdown option of a template field.
pub struct DropdownItem {
    pub dropdown_value: String,
    pub dropdown_id: i64,
}

/// A field of a merchant's template, as far as the dropdown map reads it:
/// its id, its attribute (`DD` for a dropdown) and its dropdown options.
pub struct TemplateField {
    pub field_id: String,
    pub field_attribute: String,
    pub dropdown_list: Vec<DropdownItem>,
}

/// A verification question of the merchant's QUESTIONS configuration.
pub struct Question {
    pub field_id: String,
    pub field_name: String,
    pub field_attribute: String,
    pub field_type: String,
    pub valid: bool,
    pub score: i32,
    pub accuracy: String,
}

/// A question as shown to the player.
pub struct QuestionInfo {
    pub field_id: String,
    pub field_name: String,
    pub field_attribute: String,
    pub field_type: String,
    pub field_dropdown_list: Option<Vec<DropdownItem>>,
}

/// One translation of a field name.
pub struct FieldIdTranslation {
    pub field_id: String,
    pub field_translation: String,
}

/// The answer to one question, as stored with a validation record.
pub struct QA {
    pub field_id: String,
    pub field_type: String,
    pub correct: bool,
    pub score: i32,
    pub total_score: i32,
}

/// A row of the validation records: one scored submission. `created_at`
/// is the time it was scored, in seconds since the Unix epoch.
pub struct ValidationRecord {
    pub id: Option<i64>,
    pub customer_id: i64,
    pub customer_name: String,
    pub success: i8,
    pub merchant_code: String,
    pub ip: String,
    pub passing_score: i32,
    pub score: i32,
    pub qas: String,
    pub created_at: i64,
}

/// A merchant rule as stored: its limits and scores, its QUESTIONS, template
/// fields and field translations as JSON text, and its creation and update
/// times in seconds since the Unix epoch.
pub struct MerchantRule {
    pub id: i64,
    pub is_default: i8,
    pub merchant_code: String,
    pub operator: String,
    pub ip_retry_limit: i32,
    pub account_retry_limit: i32,
    pub empty_score: i32,
    pub lock_hour: i32,
    pub binding_type: String,
    pub passing_score: i32,
    pub questions_json: Option<String>,
    pub template_fields_json: Option<String>,
    pub field_translations: Option<String>,
    pub created_at: Option<i64>,
    pub updated_at: Option<i64>,
}

/// The part of a merchant rule that the verification flow reads.
pub struct MerchantRuleConfig {
    pub id: i64,
    pub merchant_code: String,
    pub binding_type: String,
    pub passing_score: i32,
    pub empty_score: i32,
    pub lock_hour: i32,
    pub ip_retry_limit: i32,
    pub account_retry_limit: i32,
    pub questions_json: Option<String>,
    pub field_translations: Option<String>,
}

/// A copy of a dropdown item.
pub fn copy_dropdown_item(d: &DropdownItem) -> (r: DropdownItem)
    ensures
        r == *d,
{
    DropdownItem { dropdown_value: d.dropdown_value.clone(), dropdown_id: d.dropdown_id }
}

/// A copy of a list of dropdown items.
pub fn copy_dropdown_list(v: &Vec<DropdownItem>) -> (r: Vec<DropdownItem>)
    ensures
        r@ == v@,
{
    let mut r: Vec<DropdownItem> = Vec::new();
    let mut i: usize = 0;
    while i < v.len()
        invariant
            i <= v.len(),
            r@ == v@.subrange(0, i as int),
        decreases v.len() - i,
    {
        r.push(copy_dropdown_item(&v[i]));
        assert(v@.subrange(0, (i + 1) as int) =~= v@.subrange(0, i as int).push(v@[i as int]));
        i = i + 1;
    }
    assert(v@.subrange(0, v.len() as int) =~= v@);
    r
}

// ── Questions keyed by the configuration's keys ──────────────────────────────

/// The QUESTIONS configuration: questions under the keys of the JSON object
/// they were read from. Lookups go by key.
pub struct QuestionMap {
    pub entries: Vec<(String, Question)>,
}

/// The index of the first entry under `key`.
pub open spec fn question_index(s: Seq<(String, Question)>, key: Seq<char>) -> Option<int>
    decreases s.len(),
{
    if s.len() == 0 {
        None
    } else if s[0].0@ == key {
        Some(0)
    } else {
        match question_index(s.drop_first(), key) {
            Some(i) => Some(i + 1),
            None => None,
        }
    }
}

/// The question under `key`.
pub open spec fn question_at(s: Seq<(String, Question)>, key: Seq<char>) -> Option<Question> {
    match question_index(s, key) {
        Some(i) => Some(s[i].1),
        None => None,
    }
}

pub proof fn lemma_question_index_bounds(s: Seq<(String, Question)>, key: Seq<char>)
    ensures
        match question_index(s, key) {
            Some(i) => 0 <= i < s.len() && s[i].0@ == key && forall|j: int|
                0 <= j < i ==> s[j].0@ != key,
            None => forall|j: int| 0 <= j < s.len() ==> s[j].0@ != key,
        },
    decreases s.len(),
{
    if s.len() > 0 {
        lemma_question_index_bounds(s.drop_first(), key);
        if s[0].0@ != key {
            match question_index(s.drop_first(), key) {
                Some(i) => {
                    assert forall|j: int| 0 <= j < i + 1 implies s[j].0@ != key by {
                        if j > 0 {
                            assert(s[j] == s.drop_first()[j - 1]);
                        }
                    }
                },
                None => {
                    assert forall|j: int| 0 <= j < s.len() implies s[j].0@ != key by {
                        if j > 0 {
                            assert(s[j] == s.drop_first()[j - 1]);
                        }
                    }
                },
            }
        }
    }
}

/// The first index holding `key`, found by a scan from the front.
pub fn find_question_index(s: &Vec<(String, Question)>, key: &str) -> (r: Option<usize>)
    ensures
        match r {
            Some(i) => question_index(s@, key@) == Some(i as int),
            None => question_index(s@, key@) is None,
        },
{
    proof {
        lemma_question_index_bounds(s@, key@);
    }
    let mut i: usize = 0;
    while i < s.len()
        invariant
            i <= s.len(),
            forall|j: int| 0 <= j < i ==> s@[j].0@ != key@,
            match question_index(s@, key@) {
                Some(k) => 0 <= k < s.len() && s@[k].0@ == key@ && forall|j: int|
                    0 <= j < k ==> s@[j].0@ != key@,
                None => forall|j: int| 0 <= j < s.len() ==> s@[j].0@ != key@,
            },
        decreases s.len() - i,
    {
        if str_eq(s[i].0.as_str(), key) {
            return Some(i);
        }
        i = i + 1;
    }
    None
}

/// The entries of `s` whose question is marked valid, in order.
pub open spec fn valid_entries(s: Seq<(String, Question)>) -> Seq<(String, Question)>
    decreases s.len(),
{
    if s.len() == 0 {
        Seq::empty()
    } else if s.last().1.valid {
        valid_entries(s.drop_last()).push(s.last())
    } else {
        valid_entries(s.drop_last())
    }
}

/// A copy of a question.
pub fn copy_question(q: &Question) -> (r: Question)
    ensures
        r == *q,
{
    Question {
        field_id: q.field_id.clone(),
        field_name: q.field_name.clone(),
        field_attribute: q.field_attribute.clone(),
        field_type: q.field_type.clone(),
        valid: q.valid,
        score: q.score,
        accuracy: q.accuracy.clone(),
    }
}

impl QuestionMap {
    /// The questions marked valid, under their keys, in order.
    pub fn valid_questions(&self) -> (r: QuestionMap)
        ensures
            r.entries@ == valid_entries(self.entries@),
    {
        let mut entries: Vec<(String, Question)> = Vec::new();
        let mut i: usize = 0;
        while i < self.entries.len()
            invariant
                i <= self.entries.len(),
                entries@ == valid_entries(self.entries@.subrange(0, i as int)),
            decreases self.entries.len() - i,
        {
            proof {
                let s = self.entries@.subrange(0, (i + 1) as int);
                assert(s.drop_last() =~= self.entries@.subrange(0, i as int));
                assert(s.last() == self.entries@[i as int]);
            }
            if self.entries[i].1.valid {
                entries.push((self.entries[i].0.clone(), copy_question(&self.entries[i].1)));
            }
            i = i + 1;
        }
        assert(self.entries@.subrange(0, self.entries.len() as int) =~= self.entries@);
        QuestionMap { entries }
    }

    /// The question configured under `key`.
    pub fn get(&self, key: &str) -> (r: Option<&Question>)
        ensures
            match r {
                Some(q) => question_at(self.entries@, key@) == Some(*q),
                None => question_at(self.entries@, key@) is None,
            },
    {
        proof {
            lemma_question_index_bounds(self.entries@, key@);
        }
        match find_question_index(&self.entries, key) {
            Some(i) => Some(&self.entries[i].1),
            None => None,
        }
    }

    /// Whether a question is configured under `key`.
    pub fn contains_key(&self, key: &str) -> (r: bool)
        ensures
            r == question_at(self.entries@, key@) is Some,
    {
        match find_question_index(&self.entries, key) {
            Some(_) => true,
            None => false,
        }
    }
}

// ── Answers of a validation record ───────────────────────────────────────────

/// An answer as the table records it.
pub struct QaView {
    pub field_id: Seq<char>,
    pub field_type: Seq<char>,
    pub correct: bool,
    pub score: int,
    pub total_score: int,
}

impl View for QA {
    type V = QaView;

    open spec fn view(&self) -> QaView {
        QaView {
            field_id: self.field_id@,
            field_type: self.field_type@,
            correct: self.correct,
            score: self.score as int,
            total_score: self.total_score as int,
        }
    }
}

/// The answers of one submission, one per field id.
pub struct QaTable {
    pub entries: Vec<QA>,
}

impl View for QaTable {
    type V = Seq<QaView>;

    open spec fn view(&self) -> Seq<QaView> {
        self.entries@.map_values(|q: QA| q@)
    }
}

/// The index of the answer for `key`.
pub open spec fn qa_index(s: Seq<QaView>, key: Seq<char>) -> Option<int>
    decreases s.len(),
{
    if s.len() == 0 {
        None
    } else if s[0].field_id == key {
        Some(0)
    } else {
        match qa_index(s.drop_first(), key) {
            Some(i) => Some(i + 1),
            None => None,
        }
    }
}

/// The answer recorded for `key`.
pub open spec fn qa_at(s: Seq<QaView>, key: Seq<char>) -> Option<QaView> {
    match qa_index(s, key) {
        Some(i) => Some(s[i]),
        None => None,
    }
}

/// Recording `q`: it replaces the answer for its field id, or is added.
pub open spec fn qa_upsert(s: Seq<QaView>, q: QaView) -> Seq<QaView> {
    match qa_index(s, q.field_id) {
        Some(i) => s.update(i, q),
        None => s.push(q),
    }
}

/// No field id has two answers.
pub open spec fn qa_keys_distinct(s: Seq<QaView>) -> bool {
    forall|i: int, j: int|
        0 <= i < s.len() && 0 <= j < s.len() && i != j ==> s[i].field_id != s[j].field_id
}

/// The sum of the scores.
pub open spec fn qa_score_sum(s: Seq<QaView>) -> int
    decreases s.len(),
{
    if s.len() == 0 {
        0
    } else {
        qa_score_sum(s.drop_last()) + s.last().score
    }
}

pub proof fn lemma_qa_index_bounds(s: Seq<QaView>, key: Seq<char>)
    ensures
        match qa_index(s, key) {
            Some(i) => 0 <= i < s.len() && s[i].field_id == key && forall|j: int|
                0 <= j < i ==> s[j].field_id != key,
            None => forall|j: int| 0 <= j < s.len() ==> s[j].field_id != key,
        },
    decreases s.len(),
{
    if s.len() > 0 {
        lemma_qa_index_bounds(s.drop_first(), key);
        if s[0].field_id != key {
            match qa_index(s.drop_first(), key) {
                Some(i) => {
                    assert forall|j: int| 0 <= j < i + 1 implies s[j].field_id != key by {
                        if j > 0 {
                            assert(s[j] == s.drop_first()[j - 1]);
                        }
                    }
                },
                None => {
                    assert forall|j: int| 0 <= j < s.len() implies s[j].field_id != key by {
                        if j > 0 {
                            assert(s[j] == s.drop_first()[j - 1]);
                        }
                    }
                },
            }
        }
    }
}

/// Recording an answer keeps field ids distinct, and afterwards the table
/// holds exactly that answer for its field id and the old answers for every
/// other field id.
pub proof fn lemma_qa_upsert(s: Seq<QaView>, q: QaView)
    requires
        qa_keys_distinct(s),
    ensures
        qa_keys_distinct(qa_upsert(s, q)),
        qa_at(qa_upsert(s, q), q.field_id) == Some(q),
        forall|k: Seq<char>| k != q.field_id ==> qa_at(qa_upsert(s, q), k) == qa_at(s, k),
{
    lemma_qa_index_bounds(s, q.field_id);
    let t = qa_upsert(s, q);
    assert forall|i: int, j: int|
        0 <= i < t.len() && 0 <= j < t.len() && i != j implies t[i].field_id != t[j].field_id by {
    }
    lemma_qa_index_bounds(t, q.field_id);
    match qa_index(s, q.field_id) {
        Some(i) => {
            match qa_index(t, q.field_id) {
                Some(i2) => {
                    if i2 < i {
                        assert(t[i2] == s[i2]);
                    } else if i2 > i {
                        assert(t[i].field_id == q.field_id);
                    }
                },
                None => {
                    assert(t[i].field_id == q.field_id);
                },
            }
        },
        None => {
            match qa_index(t, q.field_id) {
                Some(i2) => {
                    if i2 < s.len() {
                        assert(t[i2] == s[i2]);
                    }
                },
                None => {
                    assert(t[s.len() as int].field_id == q.field_id);
                },
            }
        },
    }
    assert forall|k: Seq<char>| k != q.field_id implies qa_at(t, k) == qa_at(s, k) by {
        lemma_qa_index_bounds(t, k);
        lemma_qa_index_bounds(s, k);
        match qa_index(s, k) {
            Some(i) => {
                assert(t[i] == s[i]);
                match qa_index(t, k) {
                    Some(i2) => {
                        if i2 < i {
                            assert(t[i2] == s[i2]);
                        } else if i2 > i {
                            assert(t[i].field_id == k);
                        }
                    },
                    None => {},
                }
            },
            None => {
                match qa_index(t, k) {
                    Some(i2) => {
                        assert(i2 < s.len());
                        assert(t[i2] == s[i2]);
                    },
                    None => {},
                }
            },
        }
    }
}

impl QaTable {
    /// An empty table.
    pub fn new() -> (r: QaTable)
        ensures
            r@ == Seq::<QaView>::empty(),
    {
        let r = QaTable { entries: Vec::new() };
        assert(r@ =~= Seq::<QaView>::empty());
        r
    }

    /// The position of the answer for `key`.
    fn find(&self, key: &str) -> (r: Option<usize>)
        ensures
            match r {
                Some(i) => qa_index(self@, key@) == Some(i as int),
                None => qa_index(self@, key@) is None,
            },
    {
        proof {
            lemma_qa_index_bounds(self@, key@);
        }
        let mut i: usize = 0;
        while i < self.entries.len()
            invariant
                i <= self.entries.len(),
                self@.len() == self.entries.len(),
                forall|j: int| 0 <= j < i ==> self@[j].field_id != key@,
                match qa_index(self@, key@) {
                    Some(k) => 0 <= k < self@.len() && self@[k].field_id == key@ && forall|j: int|
                        0 <= j < k ==> self@[j].field_id != key@,
                    None => forall|j: int| 0 <= j < self@.len() ==> self@[j].field_id != key@,
                },
            decreases self.entries.len() - i,
        {
            assert(self@[i as int] == self.entries@[i as int]@);
            if str_eq(self.entries[i].field_id.as_str(), key) {
                return Some(i);
            }
            i = i + 1;
        }
        None
    }

    /// Records `q`, replacing an earlier answer for the same field id.
    pub fn insert(&mut self, q: QA)
        ensures
            final(self)@ == qa_upsert(old(self)@, q@),
    {
        proof {
            lemma_qa_index_bounds(self@, q.field_id@);
        }
        match self.find(q.field_id.as_str()) {
            Some(i) => {
                self.entries.set(i, q);
                assert(self@ =~= qa_upsert(old(self)@, q@));
            },
            None => {
                self.entries.push(q);
                assert(self@ =~= qa_upsert(old(self)@, q@));
            },
        }
    }

    /// The number of answers.
    pub fn len(&self) -> (r: usize)
        ensures
            r == self@.len(),
    {
        self.entries.len()
    }

    /// The sum of the recorded scores.
    pub fn total_score(&self) -> (r: i64)
        requires
            self@.len() <= u32::MAX,
        ensures
            r == qa_score_sum(self@),
    {
        let mut sum: i64 = 0;
        let mut i: usize = 0;
        while i < self.entries.len()
            invariant
                i <= self.entries.len(),
                self@.len() == self.entries.len(),
                self@.len() <= u32::MAX,
                sum == qa_score_sum(self@.subrange(0, i as int)),
                -(i as int) * 0x8000_0000 <= sum <= (i as int) * 0x8000_0000,
            decreases self.entries.len() - i,
        {
            let ghost pre = self@.subrange(0, i as int);
            assert(self@.subrange(0, (i + 1) as int).drop_last() =~= pre);
            assert(self@[i as int] == self.entries@[i as int]@);
            sum = sum + self.entries[i].score as i64;
            i = i + 1;
        }
        assert(self@.subrange(0, self.entries.len() as int) =~= self@);
        sum
    }
}

} // verus!
