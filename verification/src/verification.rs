//! The decisions of the verification flow: the daily question-list limits,
//! the reset channels that end the flow early, and the outcome of a
//! submission.
use vstd::prelude::*;
use crate::error::AppError;
use crate::finance_history::{apply_field_setters, apply_setters, finance_setters, finance_setters_view, history_setters, history_setters_view};
use crate::mcs::{PlayerHeaders, VerifyFinanceHistoryReq};
use crate::model::{qa_score_sum, MerchantRuleConfig, QaTable, QuestionInfo, QuestionMap, ValidationRecord};
use crate::scoring::{is_financial_history, is_financial_history_id};
use crate::text::{concat, i64_text, int_text, owned, str_eq};
use crate::types::{MerchantRuleResponse, SubmitVerifyData, VerifyDataItem};
use crate::uss::PasswordResetTokenResponse;
use crate::wps::ResetPasswordStatusResponse;

verus! {

/// The Redis database that holds the question-list counters.
pub const QUESTION_LIST_REDIS_DB: i32 = 2;

/// The counter key of an IP for a day: `ucsfe:ql:ip:<ip>:<date>`.
pub fn ip_key(ip: &str, date: &str) -> (r: String)
    ensures
        r@ == "ucsfe:ql:ip:"@ + ip@ + ":"@ + date@,
{
    let mut r = concat("ucsfe:ql:ip:", ip);
    r.append(":");
    r.append(date);
    r
}

/// The counter key of an account for a day:
/// `ucsfe:ql:acct:<merchant>@<customer>:<date>`.
pub fn acct_key(merchant: &str, customer: &str, date: &str) -> (r: String)
    ensures
        r@ == "ucsfe:ql:acct:"@ + merchant@ + "@"@ + customer@ + ":"@ + date@,
{
    let mut r = concat("ucsfe:ql:acct:", merchant);
    r.append("@");
    r.append(customer);
    r.append(":");
    r.append(date);
    r
}

/// The name USS knows a customer by: `<merchant>@<customer>`.
pub fn customer_full_name(merchant_code: &str, customer_name: &str) -> (r: String)
    ensures
        r@ == merchant_code@ + "@"@ + customer_name@,
{
    let mut r = concat(merchant_code, "@");
    r.append(customer_name);
    r
}

/// Whether another question list may be handed out today: refused as soon
/// as the IP's count reaches the merchant's IP limit or the account's count
/// reaches its account limit.
pub fn check_retry_limit(ip_cnt: i64, ip_limit: i32, ac_cnt: i64, acct_limit: i32) -> (r: Result<(), AppError>)
    ensures
        (ip_cnt >= ip_limit || ac_cnt >= acct_limit) <==> r is Err,
        r is Err ==> r == Err::<(), AppError>(AppError::QuestionLimitExceeded),
{
    if ip_cnt >= ip_limit as i64 || ac_cnt >= acct_limit as i64 {
        Err(AppError::QuestionLimitExceeded)
    } else {
        Ok(())
    }
}

/// Whether the flow goes on to the questions: not when WPS failed, nor when
/// the customer can reset by e-mail (e-mail reset open and verified) or by
/// SMS (SMS reset open and verification mode `0`).
pub fn check_reset_channels(
    wps: &ResetPasswordStatusResponse,
    email_verification: bool,
    verification_mode: &str,
) -> (r: Result<(), AppError>)
    ensures
        !wps.success ==> (r matches Err(AppError::WpsApiFailed(m)) && m@ == "success=false"@),
        wps.success && wps.value.is_email_reset_enabled && email_verification ==> r matches Err(
            AppError::EmailAlreadyBound,
        ),
        wps.success && !(wps.value.is_email_reset_enabled && email_verification)
            && wps.value.is_sms_reset_enabled && verification_mode@ == "0"@ ==> r matches Err(
            AppError::PhoneAlreadyBound,
        ),
        wps.success && !(wps.value.is_email_reset_enabled && email_verification) && !(
        wps.value.is_sms_reset_enabled && verification_mode@ == "0"@) ==> r is Ok,
{
    if !wps.success {
        return Err(AppError::WpsApiFailed(owned("success=false")));
    }
    if wps.value.is_email_reset_enabled && email_verification {
        return Err(AppError::EmailAlreadyBound);
    }
    if wps.value.is_sms_reset_enabled && str_eq(verification_mode, "0") {
        return Err(AppError::PhoneAlreadyBound);
    }
    Ok(())
}

/// The merchant's rule, or `MerchantNotFound` naming the merchant.
pub fn require_merchant_rule<T>(merchant_code: &str, found: Option<T>) -> (r: Result<T, AppError>)
    ensures
        match found {
            Some(v) => r == Ok::<T, AppError>(v),
            None => r matches Err(AppError::MerchantNotFound(m)) && m@ == merchant_code@,
        },
{
    match found {
        Some(v) => Ok(v),
        None => Err(AppError::MerchantNotFound(owned(merchant_code))),
    }
}

/// The one-time password of a token answer, or `PasswordResetFailed` when
/// USS reported failure.
pub fn token_password(token: &PasswordResetTokenResponse) -> (r: Result<String, AppError>)
    ensures
        token.success ==> (r matches Ok(p) && p@ == token.value@),
        !token.success ==> (r matches Err(AppError::PasswordResetFailed(m)) && m@
            == "USS returned failure"@),
{
    if !token.success {
        return Err(AppError::PasswordResetFailed(owned("USS returned failure")));
    }
    Ok(token.value.clone())
}

/// The question-list answer.
pub fn question_list_response(merchant_code: &str, questions: Vec<QuestionInfo>) -> (r: MerchantRuleResponse)
    ensures
        r.merchant_code@ == merchant_code@,
        r.questions@ == questions@,
{
    MerchantRuleResponse { merchant_code: owned(merchant_code), questions }
}

/// The value last submitted for each financial or history field, and its
/// bind flag, in submission order.
pub open spec fn financial_values(items: Seq<VerifyDataItem>) -> Seq<(Seq<char>, Seq<char>, bool)>
    decreases items.len(),
{
    if items.len() == 0 {
        Seq::empty()
    } else {
        let rest = financial_values(items.drop_last());
        let it = items.last();
        if is_financial_history_id(it.item.field_id@) {
            rest.push((it.item.field_id@, it.item.field_value@, it.bind))
        } else {
            rest
        }
    }
}

/// The tables hold, entry by entry, the field ids, values and bind flags of `fv`.
pub open spec fn tables_hold(values: Seq<(String, String)>, binds: Seq<(String, bool)>, fv: Seq<(Seq<char>, Seq<char>, bool)>) -> bool {
    &&& values.len() == fv.len()
    &&& binds.len() == fv.len()
    &&& forall|k: int|
        0 <= k < fv.len() ==> #[trigger] values[k].0@ == fv[k].0 && values[k].1@ == fv[k].1
            && binds[k].0@ == fv[k].0 && binds[k].1 == fv[k].2
}

/// The financial and history answers, as the field-value and bind tables
/// the MCS request is filled from.
pub fn financial_answer_maps(items: &Vec<VerifyDataItem>) -> (r: (Vec<(String, String)>, Vec<(String, bool)>))
    ensures
        tables_hold(r.0@, r.1@, financial_values(items@)),
{
    let mut values: Vec<(String, String)> = Vec::new();
    let mut binds: Vec<(String, bool)> = Vec::new();
    let mut i: usize = 0;
    while i < items.len()
        invariant
            i <= items.len(),
            tables_hold(values@, binds@, financial_values(items@.subrange(0, i as int))),
        decreases items.len() - i,
    {
        let it = &items[i];
        let ghost fv = financial_values(items@.subrange(0, i as int));
        let ghost old_values = values@;
        let ghost old_binds = binds@;
        proof {
            assert(items@.subrange(0, (i + 1) as int).drop_last() =~= items@.subrange(0, i as int));
            assert(items@.subrange(0, (i + 1) as int).last() == *it);
        }
        let ghost nfv = financial_values(items@.subrange(0, (i + 1) as int));
        if is_financial_history(it.item.field_id.as_str()) {
            values.push((it.item.field_id.clone(), it.item.field_value.clone()));
            binds.push((it.item.field_id.clone(), it.bind));
            proof {
                assert(nfv == fv.push((it.item.field_id@, it.item.field_value@, it.bind)));
                assert forall|k: int| 0 <= k < nfv.len() implies #[trigger] values@[k].0@ == nfv[k].0
                    && values@[k].1@ == nfv[k].1 && binds@[k].0@ == nfv[k].0 && binds@[k].1
                    == nfv[k].2 by {
                    if k < nfv.len() - 1 {
                        assert(nfv[k] == fv[k]);
                        assert(values@[k] == old_values[k]);
                        assert(binds@[k] == old_binds[k]);
                        assert(old_values[k].0@ == fv[k].0);
                    } else {
                        assert(nfv[k] == (it.item.field_id@, it.item.field_value@, it.bind));
                        assert(values@[k].0 == it.item.field_id);
                        assert(values@[k].1 == it.item.field_value);
                        assert(binds@[k].0 == it.item.field_id);
                    }
                }
                assert(tables_hold(values@, binds@, nfv));
            }
        } else {
            assert(nfv == fv);
        }
        i = i + 1;
    }
    assert(items@.subrange(0, items.len() as int) =~= items@);
    (values, binds)
}

/// The MCS request for a submission: the financial setters, then the
/// history setters, applied to an empty request.
pub fn build_mcs_request(
    field_id_map: &Vec<(String, String)>,
    bind_map: &Vec<(String, bool)>,
    questions: &QuestionMap,
) -> (r: VerifyFinanceHistoryReq)
    ensures
        r@ == apply_setters(
            apply_setters(
                VerifyFinanceHistoryReq::empty_view(),
                finance_setters_view(),
                field_id_map@,
                bind_map@,
                questions.entries@,
            ),
            history_setters_view(),
            field_id_map@,
            bind_map@,
            questions.entries@,
        ),
{
    let mut req = VerifyFinanceHistoryReq::empty();
    assert(req@ =~= VerifyFinanceHistoryReq::empty_view());
    let fs = finance_setters();
    let hs = history_setters();
    assert(fs@ =~= finance_setters_view());
    assert(hs@ =~= history_setters_view());
    apply_field_setters(&fs, &mut req, field_id_map, bind_map, questions);
    apply_field_setters(&hs, &mut req, field_id_map, bind_map, questions);
    req
}

/// The identity headers MCS gets for a customer.
pub fn player_headers(customer_id: i64, customer_name: &str, merchant: &str, customer_ip: &str) -> (r: PlayerHeaders)
    ensures
        r.customer_id@ == int_text(customer_id as int),
        r.customer_name@ == customer_name@,
        r.merchant@ == merchant@,
        r.customer_ip@ == customer_ip@,
{
    PlayerHeaders {
        customer_id: i64_text(customer_id),
        customer_name: owned(customer_name),
        merchant: owned(merchant),
        customer_ip: owned(customer_ip),
    }
}

/// The outcome of a submission scored `actual_score`: the score passes when
/// it reaches the merchant's passing score, and only then are the binding
/// type and the one-time password handed out.
pub fn submit_outcome(actual_score: i32, rule_cfg: &MerchantRuleConfig, one_time_password: String) -> (r: SubmitVerifyData)
    ensures
        r.score_checked == (actual_score >= rule_cfg.passing_score),
        r.score_checked ==> (r.bind_type matches Some(b) && b@ == rule_cfg.binding_type@),
        r.score_checked ==> (r.one_time_password matches Some(p) && p@ == one_time_password@),
        !r.score_checked ==> r.bind_type is None && r.one_time_password is None,
{
    let score_checked = actual_score >= rule_cfg.passing_score;
    if score_checked {
        SubmitVerifyData {
            score_checked,
            bind_type: Some(rule_cfg.binding_type.clone()),
            one_time_password: Some(one_time_password),
        }
    } else {
        SubmitVerifyData { score_checked, bind_type: None, one_time_password: None }
    }
}

/// The total score of a submission's answers.
pub fn actual_score(qa_map: &QaTable) -> (r: i32)
    requires
        qa_map@.len() <= u32::MAX,
        i32::MIN <= qa_score_sum(qa_map@) <= i32::MAX,
    ensures
        r == qa_score_sum(qa_map@),
{
    let total = qa_map.total_score();
    total as i32
}

/// The record of a submission scored `actual_score`, not yet stored: it has
/// no id, success is 1 when the score reaches the passing score, else 0, and
/// the customer is named `<merchant>@<customer>`.
pub fn validation_record(
    customer_id: i64,
    merchant_code: &str,
    customer_name: &str,
    customer_ip: &str,
    passing_score: i32,
    actual_score: i32,
    qas: String,
    created_at: i64,
) -> (r: ValidationRecord)
    ensures
        r.id is None,
        r.customer_id == customer_id,
        r.customer_name@ == merchant_code@ + "@"@ + customer_name@,
        r.success == (if actual_score >= passing_score { 1i8 } else { 0i8 }),
        r.merchant_code@ == merchant_code@,
        r.ip@ == customer_ip@,
        r.passing_score == passing_score,
        r.score == actual_score,
        r.qas@ == qas@,
        r.created_at == created_at,
{
    ValidationRecord {
        id: None,
        customer_id,
        customer_name: customer_full_name(merchant_code, customer_name),
        success: if actual_score >= passing_score { 1 } else { 0 },
        merchant_code: owned(merchant_code),
        ip: owned(customer_ip),
        passing_score,
        score: actual_score,
        qas,
        created_at,
    }
}

} // verus!
