//! Filling the MCS verification request from the player's financial and
//! history answers.
use vstd::prelude::*;
use crate::mcs::VerifyFinanceHistoryReq;
use crate::model::{question_at, QuestionMap};
use crate::text::{chars_of, owned, parse_i32, parse_i32_chars, str_eq, trim, trim_chars};

verus! {

/// The request field(s) an answer fills.
pub enum FhTarget {
    BankAccount,
    CardHolderName,
    VirtualWalletAddress,
    VirtualWalletName,
    EWalletAccount,
    EWalletName,
    LastDepositAmount,
    LastDepositTime,
    LastDepositMethod,
    LastWithdrawalAmount,
    LastWithdrawalTime,
    LastWithdrawalMethod,
}

/// Which field id fills which request field.
pub struct FhFieldSetter {
    pub field_id: &'static str,
    pub target: FhTarget,
}

/// The request as text.
#[verifier::ext_equal]
pub struct FinanceHistoryView {
    pub bc_number: Seq<char>,
    pub bc_holder_name: Seq<char>,
    pub ew_account: Seq<char>,
    pub ew_holder_name: Seq<char>,
    pub vw_address: Seq<char>,
    pub vw_holder_name: Seq<char>,
    pub is_case_sensitive: bool,
    pub last_deposit_amount: Seq<char>,
    pub last_deposit_amount_range: Seq<char>,
    pub last_deposit_method: Seq<char>,
    pub last_deposit_time: Seq<char>,
    pub last_withdraw_amount: Seq<char>,
    pub last_withdraw_amount_range: Seq<char>,
    pub last_withdraw_method: Seq<char>,
    pub last_withdraw_time: Seq<char>,
    pub last_deposit_time_range_in_day: int,
    pub last_withdraw_time_range_in_day: int,
}

impl View for VerifyFinanceHistoryReq {
    type V = FinanceHistoryView;

    open spec fn view(&self) -> FinanceHistoryView {
        let f = self.verify_player_finance_info;
        let h = self.verify_player_history_info;
        FinanceHistoryView {
            bc_number: f.bc_number@,
            bc_holder_name: f.bc_holder_name@,
            ew_account: f.ew_account@,
            ew_holder_name: f.ew_holder_name@,
            vw_address: f.vw_address@,
            vw_holder_name: f.vw_holder_name@,
            is_case_sensitive: f.is_case_sensitive,
            last_deposit_amount: h.last_deposit_amount@,
            last_deposit_amount_range: h.last_deposit_amount_range@,
            last_deposit_method: h.last_deposit_method@,
            last_deposit_time: h.last_deposit_time@,
            last_withdraw_amount: h.last_withdraw_amount@,
            last_withdraw_amount_range: h.last_withdraw_amount_range@,
            last_withdraw_method: h.last_withdraw_method@,
            last_withdraw_time: h.last_withdraw_time@,
            last_deposit_time_range_in_day: h.last_deposit_time_range_in_day as int,
            last_withdraw_time_range_in_day: h.last_withdraw_time_range_in_day as int,
        }
    }
}

impl VerifyFinanceHistoryReq {
    /// The request with every field empty, by its text.
    pub open spec fn empty_view() -> FinanceHistoryView {
        FinanceHistoryView {
            bc_number: Seq::empty(),
            bc_holder_name: Seq::empty(),
            ew_account: Seq::empty(),
            ew_holder_name: Seq::empty(),
            vw_address: Seq::empty(),
            vw_holder_name: Seq::empty(),
            is_case_sensitive: false,
            last_deposit_amount: Seq::empty(),
            last_deposit_amount_range: Seq::empty(),
            last_deposit_method: Seq::empty(),
            last_deposit_time: Seq::empty(),
            last_withdraw_amount: Seq::empty(),
            last_withdraw_amount_range: Seq::empty(),
            last_withdraw_method: Seq::empty(),
            last_withdraw_time: Seq::empty(),
            last_deposit_time_range_in_day: 0,
            last_withdraw_time_range_in_day: 0,
        }
    }
}

/// A day range read from an accuracy setting: the trimmed text as an `i32`,
/// or 0.
pub open spec fn range_in_days(acc: Seq<char>) -> int {
    match parse_i32(trim(acc)) {
        Some(n) => n,
        None => 0,
    }
}

/// The request after filling `target` with `value`, the accuracy going to
/// the field's range where it has one.
pub open spec fn fill(r: FinanceHistoryView, target: FhTarget, value: Seq<char>, acc: Seq<char>) -> FinanceHistoryView {
    match target {
        FhTarget::BankAccount => FinanceHistoryView { bc_number: value, ..r },
        FhTarget::CardHolderName => FinanceHistoryView { bc_holder_name: value, ..r },
        FhTarget::VirtualWalletAddress => FinanceHistoryView { vw_address: value, ..r },
        FhTarget::VirtualWalletName => FinanceHistoryView { vw_holder_name: value, ..r },
        FhTarget::EWalletAccount => FinanceHistoryView { ew_account: value, ..r },
        FhTarget::EWalletName => FinanceHistoryView { ew_holder_name: value, ..r },
        FhTarget::LastDepositAmount => FinanceHistoryView {
            last_deposit_amount: value,
            last_deposit_amount_range: acc,
            ..r
        },
        FhTarget::LastDepositTime => FinanceHistoryView {
            last_deposit_time: value,
            last_deposit_time_range_in_day: range_in_days(acc),
            ..r
        },
        FhTarget::LastDepositMethod => FinanceHistoryView { last_deposit_method: value, ..r },
        FhTarget::LastWithdrawalAmount => FinanceHistoryView {
            last_withdraw_amount: value,
            last_withdraw_amount_range: acc,
            ..r
        },
        FhTarget::LastWithdrawalTime => FinanceHistoryView {
            last_withdraw_time: value,
            last_withdraw_time_range_in_day: range_in_days(acc),
            ..r
        },
        FhTarget::LastWithdrawalMethod => FinanceHistoryView { last_withdraw_method: value, ..r },
    }
}

/// The value submitted last for `key`.
pub open spec fn last_text(s: Seq<(String, String)>, key: Seq<char>) -> Option<Seq<char>>
    decreases s.len(),
{
    if s.len() == 0 {
        None
    } else if s.last().0@ == key {
        Some(s.last().1@)
    } else {
        last_text(s.drop_last(), key)
    }
}

/// The bind flag submitted last for `key`.
pub open spec fn last_flag(s: Seq<(String, bool)>, key: Seq<char>) -> Option<bool>
    decreases s.len(),
{
    if s.len() == 0 {
        None
    } else if s.last().0@ == key {
        Some(s.last().1)
    } else {
        last_flag(s.drop_last(), key)
    }
}

/// The literal text MCS reads as "bound but empty".
pub open spec fn null_text() -> Seq<char> {
    seq!['N', 'U', 'L', 'L']
}

/// The request after one setter: an unbound field is cleared; a bound field
/// without a value gets `NULL` as value and accuracy; a bound field with a
/// value gets it, with the accuracy configured for its question.
pub open spec fn apply_setter(
    r: FinanceHistoryView,
    s: FhFieldSetter,
    values: Seq<(String, String)>,
    binds: Seq<(String, bool)>,
    questions: Seq<(String, crate::model::Question)>,
) -> FinanceHistoryView {
    let bound = match last_flag(binds, s.field_id@) {
        Some(b) => b,
        None => false,
    };
    let value = match last_text(values, s.field_id@) {
        Some(v) => v,
        None => Seq::empty(),
    };
    if !bound {
        fill(r, s.target, Seq::empty(), Seq::empty())
    } else if value.len() == 0 {
        fill(r, s.target, null_text(), null_text())
    } else {
        let acc = match question_at(questions, s.field_id@) {
            Some(q) => q.accuracy@,
            None => Seq::empty(),
        };
        fill(r, s.target, value, acc)
    }
}

/// The request after the setters in order.
pub open spec fn apply_setters(
    r: FinanceHistoryView,
    setters: Seq<FhFieldSetter>,
    values: Seq<(String, String)>,
    binds: Seq<(String, bool)>,
    questions: Seq<(String, crate::model::Question)>,
) -> FinanceHistoryView
    decreases setters.len(),
{
    if setters.len() == 0 {
        r
    } else {
        apply_setter(
            apply_setters(r, setters.drop_last(), values, binds, questions),
            setters.last(),
            values,
            binds,
            questions,
        )
    }
}

/// The financial setters, in the order they are applied.
pub open spec fn finance_setters_view() -> Seq<FhFieldSetter> {
    seq![
        FhFieldSetter { field_id: "BANK_ACCOUNT", target: FhTarget::BankAccount },
        FhFieldSetter { field_id: "CARD_HOLDER_NAME", target: FhTarget::CardHolderName },
        FhFieldSetter { field_id: "VIRTUAL_WALLET_ADDRESS", target: FhTarget::VirtualWalletAddress },
        FhFieldSetter { field_id: "VIRTUAL_WALLET_NAME", target: FhTarget::VirtualWalletName },
        FhFieldSetter { field_id: "E_WALLET_ACCOUNT", target: FhTarget::EWalletAccount },
        FhFieldSetter { field_id: "E_WALLET_NAME", target: FhTarget::EWalletName },
    ]
}

/// The history setters, in the order they are applied.
pub open spec fn history_setters_view() -> Seq<FhFieldSetter> {
    seq![
        FhFieldSetter { field_id: "LAST_DEPOSIT_AMOUNT", target: FhTarget::LastDepositAmount },
        FhFieldSetter { field_id: "LAST_DEPOSIT_TIME", target: FhTarget::LastDepositTime },
        FhFieldSetter { field_id: "LAST_DEPOSIT_METHOD", target: FhTarget::LastDepositMethod },
        FhFieldSetter { field_id: "LAST_WITHDRAWAL_AMOUNT", target: FhTarget::LastWithdrawalAmount },
        FhFieldSetter { field_id: "LAST_WITHDRAWAL_TIME", target: FhTarget::LastWithdrawalTime },
        FhFieldSetter { field_id: "LAST_WITHDRAWAL_METHOD", target: FhTarget::LastWithdrawalMethod },
    ]
}

/// Whether the player bound the answer to `field_id` (the flag given last).
pub open spec fn is_bound(binds: Seq<(String, bool)>, field_id: Seq<char>) -> bool {
    last_flag(binds, field_id) == Some(true)
}

/// Whether the player gave a non-empty value for `field_id` (the one given last).
pub open spec fn has_value(values: Seq<(String, String)>, field_id: Seq<char>) -> bool {
    last_text(values, field_id) matches Some(v) && v.len() > 0
}

/// The text MCS gets for the answer to `field_id`: nothing when the player
/// did not bind it, `NULL` when bound without a value, else the value
/// submitted last for that very field id.
pub open spec fn sent_text(values: Seq<(String, String)>, binds: Seq<(String, bool)>, field_id: Seq<char>) -> Seq<char> {
    if !is_bound(binds, field_id) {
        Seq::empty()
    } else if !has_value(values, field_id) {
        null_text()
    } else {
        last_text(values, field_id)->0
    }
}

/// The accuracy MCS gets with the answer to `field_id`: nothing when
/// unbound, `NULL` when bound without a value, else the accuracy the
/// merchant configured for that field's question.
pub open spec fn sent_accuracy(
    values: Seq<(String, String)>,
    binds: Seq<(String, bool)>,
    questions: Seq<(String, crate::model::Question)>,
    field_id: Seq<char>,
) -> Seq<char> {
    if !is_bound(binds, field_id) {
        Seq::empty()
    } else if !has_value(values, field_id) {
        null_text()
    } else {
        match question_at(questions, field_id) {
            Some(q) => q.accuracy@,
            None => Seq::empty(),
        }
    }
}

/// Each field of the MCS request carries the answer submitted for its own
/// field id: the bank account number that of `BANK_ACCOUNT`, the card holder
/// that of `CARD_HOLDER_NAME`, the e-wallet account and holder those of
/// `E_WALLET_ACCOUNT` and `E_WALLET_NAME`, the virtual wallet address and
/// holder those of `VIRTUAL_WALLET_ADDRESS` and `VIRTUAL_WALLET_NAME`, and
/// each last-deposit and last-withdrawal field that of its own field id;
/// the amount ranges and day ranges come from the accuracy of the amount and
/// time questions.
pub proof fn lemma_mcs_request_fields(
    r: FinanceHistoryView,
    values: Seq<(String, String)>,
    binds: Seq<(String, bool)>,
    questions: Seq<(String, crate::model::Question)>,
)
    requires
        r == apply_setters(
            apply_setters(VerifyFinanceHistoryReq::empty_view(), finance_setters_view(), values, binds, questions),
            history_setters_view(),
            values,
            binds,
            questions,
        ),
    ensures
        r.bc_number == sent_text(values, binds, "BANK_ACCOUNT"@),
        r.bc_holder_name == sent_text(values, binds, "CARD_HOLDER_NAME"@),
        r.vw_address == sent_text(values, binds, "VIRTUAL_WALLET_ADDRESS"@),
        r.vw_holder_name == sent_text(values, binds, "VIRTUAL_WALLET_NAME"@),
        r.ew_account == sent_text(values, binds, "E_WALLET_ACCOUNT"@),
        r.ew_holder_name == sent_text(values, binds, "E_WALLET_NAME"@),
        r.last_deposit_amount == sent_text(values, binds, "LAST_DEPOSIT_AMOUNT"@),
        r.last_deposit_time == sent_text(values, binds, "LAST_DEPOSIT_TIME"@),
        r.last_deposit_method == sent_text(values, binds, "LAST_DEPOSIT_METHOD"@),
        r.last_withdraw_amount == sent_text(values, binds, "LAST_WITHDRAWAL_AMOUNT"@),
        r.last_withdraw_time == sent_text(values, binds, "LAST_WITHDRAWAL_TIME"@),
        r.last_withdraw_method == sent_text(values, binds, "LAST_WITHDRAWAL_METHOD"@),
        r.last_deposit_amount_range == sent_accuracy(values, binds, questions, "LAST_DEPOSIT_AMOUNT"@),
        r.last_withdraw_amount_range == sent_accuracy(values, binds, questions, "LAST_WITHDRAWAL_AMOUNT"@),
        r.last_deposit_time_range_in_day == range_in_days(sent_accuracy(values, binds, questions, "LAST_DEPOSIT_TIME"@)),
        r.last_withdraw_time_range_in_day == range_in_days(sent_accuracy(values, binds, questions, "LAST_WITHDRAWAL_TIME"@)),
        !r.is_case_sensitive,
{
    let e = VerifyFinanceHistoryReq::empty_view();
    let fs = finance_setters_view();
    let hs = history_setters_view();
    let f = lemma_six_setters(e, fs, values, binds, questions);
    lemma_six_setters(f, hs, values, binds, questions);
}

/// One setter fills its target with the text and accuracy sent for its
/// field id.
proof fn lemma_apply_setter_fills(
    r: FinanceHistoryView,
    s: FhFieldSetter,
    values: Seq<(String, String)>,
    binds: Seq<(String, bool)>,
    questions: Seq<(String, crate::model::Question)>,
)
    ensures
        apply_setter(r, s, values, binds, questions) == fill(
            r,
            s.target,
            sent_text(values, binds, s.field_id@),
            sent_accuracy(values, binds, questions, s.field_id@),
        ),
{
}

/// Six setters applied in order are six fills, one per setter.
proof fn lemma_six_setters(
    r: FinanceHistoryView,
    s: Seq<FhFieldSetter>,
    values: Seq<(String, String)>,
    binds: Seq<(String, bool)>,
    questions: Seq<(String, crate::model::Question)>,
) -> (out: FinanceHistoryView)
    requires
        s.len() == 6,
    ensures
        out == apply_setters(r, s, values, binds, questions),
        out == fill(fill(fill(fill(fill(fill(r,
            s[0].target, sent_text(values, binds, s[0].field_id@), sent_accuracy(values, binds, questions, s[0].field_id@)),
            s[1].target, sent_text(values, binds, s[1].field_id@), sent_accuracy(values, binds, questions, s[1].field_id@)),
            s[2].target, sent_text(values, binds, s[2].field_id@), sent_accuracy(values, binds, questions, s[2].field_id@)),
            s[3].target, sent_text(values, binds, s[3].field_id@), sent_accuracy(values, binds, questions, s[3].field_id@)),
            s[4].target, sent_text(values, binds, s[4].field_id@), sent_accuracy(values, binds, questions, s[4].field_id@)),
            s[5].target, sent_text(values, binds, s[5].field_id@), sent_accuracy(values, binds, questions, s[5].field_id@)),
{
    assert(s.subrange(0, 0).len() == 0);
    assert(s.subrange(0, 1).drop_last() =~= s.subrange(0, 0));
    assert(s.subrange(0, 1).last() == s[0]);
    lemma_apply_setter_fills(apply_setters(r, s.subrange(0, 0), values, binds, questions), s[0], values, binds, questions);
    assert(s.subrange(0, 2).drop_last() =~= s.subrange(0, 1));
    assert(s.subrange(0, 2).last() == s[1]);
    lemma_apply_setter_fills(apply_setters(r, s.subrange(0, 1), values, binds, questions), s[1], values, binds, questions);
    assert(s.subrange(0, 3).drop_last() =~= s.subrange(0, 2));
    assert(s.subrange(0, 3).last() == s[2]);
    lemma_apply_setter_fills(apply_setters(r, s.subrange(0, 2), values, binds, questions), s[2], values, binds, questions);
    assert(s.subrange(0, 4).drop_last() =~= s.subrange(0, 3));
    assert(s.subrange(0, 4).last() == s[3]);
    lemma_apply_setter_fills(apply_setters(r, s.subrange(0, 3), values, binds, questions), s[3], values, binds, questions);
    assert(s.subrange(0, 5).drop_last() =~= s.subrange(0, 4));
    assert(s.subrange(0, 5).last() == s[4]);
    lemma_apply_setter_fills(apply_setters(r, s.subrange(0, 4), values, binds, questions), s[4], values, binds, questions);
    assert(s.subrange(0, 6).drop_last() =~= s.subrange(0, 5));
    assert(s.subrange(0, 6).last() == s[5]);
    lemma_apply_setter_fills(apply_setters(r, s.subrange(0, 5), values, binds, questions), s[5], values, binds, questions);
    assert(s.subrange(0, 6) =~= s);
    apply_setters(r, s, values, binds, questions)
}

/// The setters for the financial fields.
pub fn finance_setters() -> (r: Vec<FhFieldSetter>)
    ensures
        r@ == finance_setters_view(),
{
    let r = vec![
        FhFieldSetter { field_id: "BANK_ACCOUNT", target: FhTarget::BankAccount },
        FhFieldSetter { field_id: "CARD_HOLDER_NAME", target: FhTarget::CardHolderName },
        FhFieldSetter { field_id: "VIRTUAL_WALLET_ADDRESS", target: FhTarget::VirtualWalletAddress },
        FhFieldSetter { field_id: "VIRTUAL_WALLET_NAME", target: FhTarget::VirtualWalletName },
        FhFieldSetter { field_id: "E_WALLET_ACCOUNT", target: FhTarget::EWalletAccount },
        FhFieldSetter { field_id: "E_WALLET_NAME", target: FhTarget::EWalletName },
    ];
    assert(r@ =~= finance_setters_view());
    r
}

/// The setters for the history fields.
pub fn history_setters() -> (r: Vec<FhFieldSetter>)
    ensures
        r@ == history_setters_view(),
{
    let r = vec![
        FhFieldSetter { field_id: "LAST_DEPOSIT_AMOUNT", target: FhTarget::LastDepositAmount },
        FhFieldSetter { field_id: "LAST_DEPOSIT_TIME", target: FhTarget::LastDepositTime },
        FhFieldSetter { field_id: "LAST_DEPOSIT_METHOD", target: FhTarget::LastDepositMethod },
        FhFieldSetter { field_id: "LAST_WITHDRAWAL_AMOUNT", target: FhTarget::LastWithdrawalAmount },
        FhFieldSetter { field_id: "LAST_WITHDRAWAL_TIME", target: FhTarget::LastWithdrawalTime },
        FhFieldSetter { field_id: "LAST_WITHDRAWAL_METHOD", target: FhTarget::LastWithdrawalMethod },
    ];
    assert(r@ =~= history_setters_view());
    r
}

/// The value submitted last for `key`.
pub fn last_text_of<'a>(s: &'a Vec<(String, String)>, key: &str) -> (r: Option<&'a String>)
    ensures
        match r {
            Some(v) => last_text(s@, key@) == Some(v@),
            None => last_text(s@, key@) is None,
        },
{
    let mut i: usize = s.len();
    assert(s@.subrange(0, s.len() as int) =~= s@);
    while i > 0
        invariant
            i <= s.len(),
            last_text(s@, key@) == last_text(s@.subrange(0, i as int), key@),
        decreases i,
    {
        let ghost pre = s@.subrange(0, i as int);
        assert(pre.drop_last() =~= s@.subrange(0, i - 1));
        if str_eq(s[i - 1].0.as_str(), key) {
            return Some(&s[i - 1].1);
        }
        i = i - 1;
    }
    None
}

/// The bind flag submitted last for `key`.
pub fn last_flag_of(s: &Vec<(String, bool)>, key: &str) -> (r: Option<bool>)
    ensures
        r == last_flag(s@, key@),
{
    let mut i: usize = s.len();
    assert(s@.subrange(0, s.len() as int) =~= s@);
    while i > 0
        invariant
            i <= s.len(),
            last_flag(s@, key@) == last_flag(s@.subrange(0, i as int), key@),
        decreases i,
    {
        let ghost pre = s@.subrange(0, i as int);
        assert(pre.drop_last() =~= s@.subrange(0, i - 1));
        if str_eq(s[i - 1].0.as_str(), key) {
            return Some(s[i - 1].1);
        }
        i = i - 1;
    }
    None
}

/// A day range read from an accuracy setting: the trimmed text as an `i32`, or 0.
fn parse_range_in_days(acc: &str) -> (r: i32)
    ensures
        r == range_in_days(acc@),
{
    let v = chars_of(acc);
    let t = trim_chars(&v);
    match parse_i32_chars(&t) {
        Some(n) => n,
        None => 0,
    }
}

/// Fills `target` of the request with `value` and `acc`.
fn fill_target(req: &mut VerifyFinanceHistoryReq, target: &FhTarget, value: String, acc: String)
    ensures
        final(req)@ == fill(old(req)@, *target, value@, acc@),
{
    match target {
        FhTarget::BankAccount => {
            req.verify_player_finance_info.bc_number = value;
        },
        FhTarget::CardHolderName => {
            req.verify_player_finance_info.bc_holder_name = value;
        },
        FhTarget::VirtualWalletAddress => {
            req.verify_player_finance_info.vw_address = value;
        },
        FhTarget::VirtualWalletName => {
            req.verify_player_finance_info.vw_holder_name = value;
        },
        FhTarget::EWalletAccount => {
            req.verify_player_finance_info.ew_account = value;
        },
        FhTarget::EWalletName => {
            req.verify_player_finance_info.ew_holder_name = value;
        },
        FhTarget::LastDepositAmount => {
            req.verify_player_history_info.last_deposit_amount = value;
            req.verify_player_history_info.last_deposit_amount_range = acc;
        },
        FhTarget::LastDepositTime => {
            req.verify_player_history_info.last_deposit_time = value;
            req.verify_player_history_info.last_deposit_time_range_in_day = parse_range_in_days(
                acc.as_str(),
            );
        },
        FhTarget::LastDepositMethod => {
            req.verify_player_history_info.last_deposit_method = value;
        },
        FhTarget::LastWithdrawalAmount => {
            req.verify_player_history_info.last_withdraw_amount = value;
            req.verify_player_history_info.last_withdraw_amount_range = acc;
        },
        FhTarget::LastWithdrawalTime => {
            req.verify_player_history_info.last_withdraw_time = value;
            req.verify_player_history_info.last_withdraw_time_range_in_day = parse_range_in_days(
                acc.as_str(),
            );
        },
        FhTarget::LastWithdrawalMethod => {
            req.verify_player_history_info.last_withdraw_method = value;
        },
    }
}

/// Applies the setters in order: an unbound field is cleared; a bound field
/// without a value gets `NULL` as value and accuracy; a bound field with a
/// value gets it, with the accuracy configured for its question.
pub fn apply_field_setters(
    setters: &Vec<FhFieldSetter>,
    req: &mut VerifyFinanceHistoryReq,
    field_id_map: &Vec<(String, String)>,
    bind_map: &Vec<(String, bool)>,
    question_cfg: &QuestionMap,
)
    ensures
        final(req)@ == apply_setters(
            old(req)@,
            setters@,
            field_id_map@,
            bind_map@,
            question_cfg.entries@,
        ),
{
    let mut i: usize = 0;
    while i < setters.len()
        invariant
            i <= setters.len(),
            req@ == apply_setters(
                old(req)@,
                setters@.subrange(0, i as int),
                field_id_map@,
                bind_map@,
                question_cfg.entries@,
            ),
        decreases setters.len() - i,
    {
        let s = &setters[i];
        proof {
            assert(setters@.subrange(0, (i + 1) as int).drop_last() =~= setters@.subrange(0, i as int));
        }
        let bound = match last_flag_of(bind_map, s.field_id) {
            Some(b) => b,
            None => false,
        };
        if !bound {
            fill_target(req, &s.target, String::new(), String::new());
        } else {
            let value: String = match last_text_of(field_id_map, s.field_id) {
                Some(v) => v.clone(),
                None => String::new(),
            };
            if value.as_str().is_empty() {
                let n1 = owned("NULL");
                let n2 = owned("NULL");
                proof {
                    reveal_strlit("NULL");
                }
                assert(n1@ =~= null_text());
                fill_target(req, &s.target, n1, n2);
            } else {
                let acc: String = match question_cfg.get(s.field_id) {
                    Some(q) => q.accuracy.clone(),
                    None => String::new(),
                };
                fill_target(req, &s.target, value, acc);
            }
        }
        i = i + 1;
    }
    assert(setters@.subrange(0, setters.len() as int) =~= setters@);
}

} // verus!
