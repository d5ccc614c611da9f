//! The submission of verification materials as a sequence of steps. Each
//! step takes what the last read gave back and says what to read next; the
//! caller does the reading (USS, the database, MCS) between the steps and,
//! at the end, stores the record and answers with the outcome.
use vstd::prelude::*;
use crate::error::AppError;
use crate::finance_history::{apply_setters, finance_setters_view, history_setters_view};
use crate::mcs::{PlayerHeaders, VerifyFinanceHistoryReq, VerifyFinanceHistoryResp};
use crate::model::{question_at, MerchantRuleConfig, QaTable, QaView, QuestionMap};
use crate::scoring::{
    accurate_judgment_score, accuracy_readable, amount_matcher_ok, calculate_score_for_financial_history,
    financial_verdicts, item_field_ids, reaches_date_match, score_financial, score_profile_items, texts,
};
use crate::text::{concat, int_text, owned};
use crate::types::{SubmitVerifyData, SubmitVerifyRequest};
use crate::uss::{PasswordResetTokenResponse, ScoringProfile};
use crate::uss_mapping::UssMappingCache;
use crate::verification::{build_mcs_request, customer_full_name, financial_answer_maps, financial_values, player_headers, tables_hold};

verus! {

/// What a submission waits for.
pub enum SubmitState {
    /// Nothing was asked yet.
    Start,
    /// The customer, a password-reset token and the merchant's rule are being read.
    AwaitAccount { merchant_code: String, customer_ip: String, request: SubmitVerifyRequest },
    /// The customer's personal information and the merchant's questions are being read.
    AwaitPersonalInfo {
        merchant_code: String,
        customer_ip: String,
        request: SubmitVerifyRequest,
        customer_id: i64,
        one_time_password: String,
        rule: MerchantRuleConfig,
    },
    /// MCS is judging the financial and history answers.
    AwaitMcs {
        merchant_code: String,
        customer_ip: String,
        customer_name: String,
        customer_id: i64,
        one_time_password: String,
        rule: MerchantRuleConfig,
        questions: QuestionMap,
        submitted: Vec<String>,
        qa: QaTable,
    },
    /// The submission was scored or refused.
    Done,
}

/// What came back of the last reads.
pub enum SubmitEvent {
    /// The submission arrived.
    Begin { merchant_code: String, customer_ip: String, request: SubmitVerifyRequest },
    /// The customer's id, the reset token and the rule if there is one, or
    /// why each read failed.
    Account {
        customer_id: Result<i64, String>,
        token: Result<PasswordResetTokenResponse, String>,
        rule: Result<Option<MerchantRuleConfig>, String>,
    },
    /// The facts the answers are judged against, or why the personal
    /// information could not be read, and the questions (`None` when they
    /// cannot be read).
    PersonalInfo { profile: Result<ScoringProfile, String>, questions: Option<QuestionMap> },
    /// The judgement of MCS, or why it could not be had.
    McsAnswered(Result<VerifyFinanceHistoryResp, String>),
    /// A read failed.
    Failed(AppError),
}

/// What the caller does next.
pub enum SubmitAction {
    /// Read the customer of `full_name`, a reset token for `customer_name`
    /// at the merchant, and the merchant's rule.
    ReadAccount { full_name: String, customer_name: String, merchant_code: String },
    /// Read the customer's personal information, and the questions from this text.
    ReadPersonalInfo { customer_id: i64, questions_json: Option<String> },
    /// Ask MCS to judge the request under these headers.
    CallMcs { headers: PlayerHeaders, request: VerifyFinanceHistoryReq },
    /// All answers are scored: store the record and answer with the outcome.
    Score {
        merchant_code: String,
        customer_ip: String,
        customer_name: String,
        customer_id: i64,
        one_time_password: String,
        rule: MerchantRuleConfig,
        qa: QaTable,
    },
    /// Answer with the refusal.
    Refuse(AppError),
}

/// Whether `event` is one that `state` waits for.
pub open spec fn submit_accepts(state: SubmitState, event: SubmitEvent) -> bool {
    match state {
        SubmitState::Start => event is Begin,
        SubmitState::AwaitAccount { .. } => event is Account || event is Failed,
        SubmitState::AwaitPersonalInfo { .. } => event is PersonalInfo || event is Failed,
        SubmitState::AwaitMcs { .. } => event is McsAnswered || event is Failed,
        SubmitState::Done => false,
    }
}

/// What the profile step needs of the caller: an amount matcher that always
/// answers the same, and readable accuracies for every answer that reaches
/// a date comparison.
pub open spec fn personal_info_ready<F: Fn(&str, &str, &str) -> bool>(
    request: SubmitVerifyRequest,
    event: SubmitEvent,
    mapping: Map<Seq<char>, Seq<char>>,
    match_amount: F,
) -> bool {
    event matches SubmitEvent::PersonalInfo { profile: Ok(p), questions: Some(qm) } ==> {
        &&& amount_matcher_ok(match_amount)
        &&& forall|i: int|
            0 <= i < request.data.len() && reaches_date_match(#[trigger] request.data@[i], p, qm.entries@, mapping)
                ==> accuracy_readable(question_at(qm.entries@, request.data@[i].item.field_id@)->0.accuracy@)
    }
}

/// The step after `Begin`: read the customer, a token and the rule.
pub open spec fn submit_begin_ok(event: SubmitEvent, r: (SubmitState, SubmitAction)) -> bool {
    event matches SubmitEvent::Begin { merchant_code, customer_ip, request }
        && (r.0 matches SubmitState::AwaitAccount { merchant_code: mc, customer_ip: ip, request: req }
            && mc@ == merchant_code@ && ip@ == customer_ip@ && req == request)
        && (r.1 matches SubmitAction::ReadAccount { full_name, customer_name, merchant_code: mc2 }
            && full_name@ == merchant_code@ + "@"@ + request.customer_name@
            && customer_name@ == request.customer_name@ && mc2@ == merchant_code@)
}

/// The step after `Account`: a customer failure first, then a token failure
/// or refusal, then a rule failure or absence; else the personal information
/// is read.
pub open spec fn account_step_ok(
    merchant_code: Seq<char>,
    customer_ip: Seq<char>,
    request: SubmitVerifyRequest,
    customer_id: Result<i64, String>,
    token: Result<PasswordResetTokenResponse, String>,
    rule: Result<Option<MerchantRuleConfig>, String>,
    r: (SubmitState, SubmitAction),
) -> bool {
    match customer_id {
        Err(m) => r.0 is Done && (r.1 matches SubmitAction::Refuse(AppError::CustomerFetchFailed(e)) && e@ == m@),
        Ok(cid) => match token {
            Err(m) => r.0 is Done && (r.1 matches SubmitAction::Refuse(AppError::PasswordResetFailed(e)) && e@ == m@),
            Ok(t) => if !t.success {
                r.0 is Done && (r.1 matches SubmitAction::Refuse(AppError::PasswordResetFailed(e)) && e@
                    == "USS returned failure"@)
            } else {
                match rule {
                    Err(m) => r.0 is Done && (r.1 matches SubmitAction::Refuse(AppError::Internal(e)) && e@ == m@),
                    Ok(None) => r.0 is Done && (r.1 matches SubmitAction::Refuse(AppError::MerchantNotFound(e)) && e@
                        == merchant_code),
                    Ok(Some(cfg)) => (r.0 matches SubmitState::AwaitPersonalInfo {
                        merchant_code: mc,
                        customer_ip: ip,
                        request: req,
                        customer_id: id,
                        one_time_password: otp,
                        rule: kept,
                    } && mc@ == merchant_code && ip@ == customer_ip && req == request && id == cid && otp@ == t.value@
                        && kept == cfg) && (r.1 matches SubmitAction::ReadPersonalInfo { customer_id: id2, questions_json: q }
                        && id2 == cid && q == cfg.questions_json),
                }
            },
        },
    }
}

/// The step after `PersonalInfo`: a personal-information failure first, then
/// unreadable questions; else the profile answers are scored and MCS is asked
/// to judge the financial and history answers.
pub open spec fn personal_info_step_ok<F: Fn(&str, &str, &str) -> bool>(
    merchant_code: Seq<char>,
    customer_ip: Seq<char>,
    request: SubmitVerifyRequest,
    customer_id: i64,
    one_time_password: Seq<char>,
    rule: MerchantRuleConfig,
    profile: Result<ScoringProfile, String>,
    questions: Option<QuestionMap>,
    mapping: Map<Seq<char>, Seq<char>>,
    match_amount: F,
    r: (SubmitState, SubmitAction),
) -> bool {
    match profile {
        Err(m) => r.0 is Done && (r.1 matches SubmitAction::Refuse(AppError::CustomerPersonalInfoFetchFailed(e)) && e@
            == m@),
        Ok(p) => match questions {
            None => r.0 is Done && (r.1 matches SubmitAction::Refuse(AppError::ParseJsonFailed(e)) && e@
                == "merchantCode="@ + merchant_code),
            Some(qm) => {
                &&& r.0 matches SubmitState::AwaitMcs {
                    merchant_code: mc,
                    customer_ip: ip,
                    customer_name: cn,
                    customer_id: id,
                    one_time_password: otp,
                    rule: kept,
                    questions: q,
                    submitted: s,
                    qa: t,
                } && mc@ == merchant_code && ip@ == customer_ip && cn@ == request.customer_name@ && id == customer_id
                    && otp@ == one_time_password && kept == rule && q == qm && texts(s@) == item_field_ids(request.data@)
                    && t@ == score_profile_items(Seq::<QaView>::empty(), request.data@, p, qm.entries@, mapping, rule.empty_score, match_amount)
                &&& r.1 matches SubmitAction::CallMcs { headers: h, request: mreq } && h.customer_id@ == int_text(customer_id as int)
                    && h.customer_name@ == request.customer_name@ && h.merchant@ == merchant_code && h.customer_ip@ == customer_ip
                    && exists|values: Seq<(String, String)>, binds: Seq<(String, bool)>|
                    #[trigger] tables_hold(values, binds, financial_values(request.data@)) && mreq@ == apply_setters(
                        apply_setters(VerifyFinanceHistoryReq::empty_view(), finance_setters_view(), values, binds, qm.entries@),
                        history_setters_view(),
                        values,
                        binds,
                        qm.entries@,
                    )
            },
        },
    }
}

/// The step after `McsAnswered`: an MCS failure refuses; else its verdicts
/// are scored and the submission is ready to be recorded and answered.
pub open spec fn mcs_step_ok(
    merchant_code: Seq<char>,
    customer_ip: Seq<char>,
    customer_name: Seq<char>,
    customer_id: i64,
    one_time_password: Seq<char>,
    rule: MerchantRuleConfig,
    questions: QuestionMap,
    submitted: Seq<String>,
    qa: Seq<QaView>,
    answer: Result<VerifyFinanceHistoryResp, String>,
    r: (SubmitState, SubmitAction),
) -> bool {
    r.0 is Done && match answer {
        Err(m) => r.1 matches SubmitAction::Refuse(AppError::VerifyPlayerInfoFailed(e)) && e@ == m@,
        Ok(resp) => r.1 matches SubmitAction::Score {
            merchant_code: mc,
            customer_ip: ip,
            customer_name: cn,
            customer_id: id,
            one_time_password: otp,
            rule: kept,
            qa: t,
        } && mc@ == merchant_code && ip@ == customer_ip && cn@ == customer_name && id == customer_id && otp@
            == one_time_password && kept == rule && t@ == score_financial(
            qa,
            financial_verdicts(resp),
            texts(submitted),
            questions.entries@,
            rule.empty_score,
        ),
    }
}

/// What one step does: a failed read refuses with its error, and each state
/// goes on as its step says.
pub open spec fn submit_step_ok<F: Fn(&str, &str, &str) -> bool>(
    state: SubmitState,
    event: SubmitEvent,
    mapping: Map<Seq<char>, Seq<char>>,
    match_amount: F,
    r: (SubmitState, SubmitAction),
) -> bool {
    &&& event matches SubmitEvent::Failed(e) ==> r.0 is Done && r.1 == SubmitAction::Refuse(e)
    &&& state is Start ==> submit_begin_ok(event, r)
    &&& state matches SubmitState::AwaitAccount { merchant_code, customer_ip, request } ==> (event matches SubmitEvent::Account {
        customer_id,
        token,
        rule,
    } ==> account_step_ok(merchant_code@, customer_ip@, request, customer_id, token, rule, r))
    &&& state matches SubmitState::AwaitPersonalInfo { merchant_code, customer_ip, request, customer_id, one_time_password, rule }
        ==> (event matches SubmitEvent::PersonalInfo { profile, questions } ==> personal_info_step_ok(
        merchant_code@,
        customer_ip@,
        request,
        customer_id,
        one_time_password@,
        rule,
        profile,
        questions,
        mapping,
        match_amount,
        r,
    ))
    &&& state matches SubmitState::AwaitMcs {
        merchant_code,
        customer_ip,
        customer_name,
        customer_id,
        one_time_password,
        rule,
        questions,
        submitted,
        qa,
    } ==> (event matches SubmitEvent::McsAnswered(answer) ==> mcs_step_ok(
        merchant_code@,
        customer_ip@,
        customer_name@,
        customer_id,
        one_time_password@,
        rule,
        questions,
        submitted@,
        qa@,
        answer,
        r,
    ))
}

/// One step of a submission: from the state and what came back, the next
/// state and what to do. `uss_mapping` and `match_amount` are what the
/// profile answers are judged with.
pub fn submit_step<F: Fn(&str, &str, &str) -> bool>(
    state: SubmitState,
    event: SubmitEvent,
    uss_mapping: &UssMappingCache,
    match_amount: &F,
) -> (r: (SubmitState, SubmitAction))
    requires
        submit_accepts(state, event),
        state matches SubmitState::AwaitPersonalInfo { request, .. } ==> personal_info_ready(
            request,
            event,
            uss_mapping.contents(),
            *match_amount,
        ),
    ensures
        submit_step_ok(state, event, uss_mapping.contents(), *match_amount, r),
{
    match event {
        SubmitEvent::Failed(e) => (SubmitState::Done, SubmitAction::Refuse(e)),
        SubmitEvent::Begin { merchant_code, customer_ip, request } => {
            let full_name = customer_full_name(merchant_code.as_str(), request.customer_name.as_str());
            let action = SubmitAction::ReadAccount {
                full_name,
                customer_name: request.customer_name.clone(),
                merchant_code: merchant_code.clone(),
            };
            (SubmitState::AwaitAccount { merchant_code, customer_ip, request }, action)
        },
        SubmitEvent::Account { customer_id, token, rule } => {
            match state {
                SubmitState::AwaitAccount { merchant_code, customer_ip, request } => {
                    let cid = match customer_id {
                        Err(m) => {
                            return (SubmitState::Done, SubmitAction::Refuse(AppError::CustomerFetchFailed(m)));
                        },
                        Ok(cid) => cid,
                    };
                    let t = match token {
                        Err(m) => {
                            return (SubmitState::Done, SubmitAction::Refuse(AppError::PasswordResetFailed(m)));
                        },
                        Ok(t) => t,
                    };
                    if !t.success {
                        let m = owned("USS returned failure");
                        return (SubmitState::Done, SubmitAction::Refuse(AppError::PasswordResetFailed(m)));
                    }
                    let cfg = match rule {
                        Err(m) => {
                            return (SubmitState::Done, SubmitAction::Refuse(AppError::Internal(m)));
                        },
                        Ok(None) => {
                            return (SubmitState::Done, SubmitAction::Refuse(AppError::MerchantNotFound(merchant_code)));
                        },
                        Ok(Some(cfg)) => cfg,
                    };
                    let action = SubmitAction::ReadPersonalInfo { customer_id: cid, questions_json: cfg.questions_json.clone() };
                    (
                        SubmitState::AwaitPersonalInfo {
                            merchant_code,
                            customer_ip,
                            request,
                            customer_id: cid,
                            one_time_password: t.value,
                            rule: cfg,
                        },
                        action,
                    )
                },
                _ => {
                    proof {
                        assert(false);
                    }
                    (SubmitState::Done, SubmitAction::Refuse(AppError::RedisNotFound))
                },
            }
        },
        SubmitEvent::PersonalInfo { profile, questions } => {
            match state {
                SubmitState::AwaitPersonalInfo { merchant_code, customer_ip, request, customer_id, one_time_password, rule } => {
                    let p = match profile {
                        Err(m) => {
                            return (SubmitState::Done, SubmitAction::Refuse(AppError::CustomerPersonalInfoFetchFailed(m)));
                        },
                        Ok(p) => p,
                    };
                    let qm = match questions {
                        None => {
                            let m = concat("merchantCode=", merchant_code.as_str());
                            return (SubmitState::Done, SubmitAction::Refuse(AppError::ParseJsonFailed(m)));
                        },
                        Some(qm) => qm,
                    };
                    let mut submitted: Vec<String> = Vec::new();
                    let mut qa = QaTable::new();
                    proof {
                        assert(texts(submitted@) =~= Seq::<Seq<char>>::empty());
                    }
                    accurate_judgment_score(&mut submitted, &request.data, &p, &rule, &mut qa, &qm, uss_mapping, match_amount);
                    assert(texts(submitted@) =~= item_field_ids(request.data@));
                    let (values, binds) = financial_answer_maps(&request.data);
                    let mreq = build_mcs_request(&values, &binds, &qm);
                    let headers = player_headers(customer_id, request.customer_name.as_str(), merchant_code.as_str(), customer_ip.as_str());
                    assert(tables_hold(values@, binds@, financial_values(request.data@)));
                    (
                        SubmitState::AwaitMcs {
                            merchant_code,
                            customer_ip,
                            customer_name: request.customer_name,
                            customer_id,
                            one_time_password,
                            rule,
                            questions: qm,
                            submitted,
                            qa,
                        },
                        SubmitAction::CallMcs { headers, request: mreq },
                    )
                },
                _ => {
                    proof {
                        assert(false);
                    }
                    (SubmitState::Done, SubmitAction::Refuse(AppError::RedisNotFound))
                },
            }
        },
        SubmitEvent::McsAnswered(answer) => {
            match state {
                SubmitState::AwaitMcs {
                    merchant_code,
                    customer_ip,
                    customer_name,
                    customer_id,
                    one_time_password,
                    rule,
                    questions,
                    submitted,
                    qa,
                } => {
                    match answer {
                        Err(m) => (SubmitState::Done, SubmitAction::Refuse(AppError::VerifyPlayerInfoFailed(m))),
                        Ok(resp) => {
                            let mut qa = qa;
                            calculate_score_for_financial_history(&submitted, &resp, &rule, &mut qa, &questions);
                            (
                                SubmitState::Done,
                                SubmitAction::Score {
                                    merchant_code,
                                    customer_ip,
                                    customer_name,
                                    customer_id,
                                    one_time_password,
                                    rule,
                                    qa,
                                },
                            )
                        },
                    }
                },
                _ => {
                    proof {
                        assert(false);
                    }
                    (SubmitState::Done, SubmitAction::Refuse(AppError::RedisNotFound))
                },
            }
        },
    }
}

/// Whether `states`, `events` and `actions` are a run of submission steps
/// from the start, judged with `mapping` and `match_amount`.
pub open spec fn is_submit_run<F: Fn(&str, &str, &str) -> bool>(
    states: Seq<SubmitState>,
    events: Seq<SubmitEvent>,
    actions: Seq<SubmitAction>,
    mapping: Map<Seq<char>, Seq<char>>,
    match_amount: F,
) -> bool {
    &&& states.len() == events.len() + 1
    &&& actions.len() == events.len()
    &&& states[0] is Start
    &&& forall|k: int|
        0 <= k < events.len() ==> submit_accepts(states[k], events[k]) && #[trigger] submit_step_ok(
            states[k],
            events[k],
            mapping,
            match_amount,
            (states[k + 1], actions[k]),
        )
}

/// A submission is only scored after USS gave a token that it did not refuse
/// and the merchant's rule was found, and after MCS answered; the one-time
/// password scored with is that token's, and the rule is the one found.
pub proof fn lemma_scored_only_after_checks<F: Fn(&str, &str, &str) -> bool>(
    states: Seq<SubmitState>,
    events: Seq<SubmitEvent>,
    actions: Seq<SubmitAction>,
    mapping: Map<Seq<char>, Seq<char>>,
    match_amount: F,
    n: int,
)
    requires
        is_submit_run(states, events, actions, mapping, match_amount),
        0 <= n < actions.len(),
        actions[n] is Score,
    ensures
        n >= 2,
        events[n] matches SubmitEvent::McsAnswered(Ok(_)),
        events[n - 2] matches SubmitEvent::Account { customer_id: Ok(_), token: Ok(t), rule: Ok(Some(cfg)) } && t.success
            && actions[n]->one_time_password@ == t.value@ && actions[n]->Score_rule == cfg,
{
    assert(submit_step_ok(states[n], events[n], mapping, match_amount, (states[n + 1], actions[n])));
    assert(states[n] is AwaitMcs);
    assert(n >= 1);
    let k = n - 1;
    assert(k + 1 == n);
    assert(submit_step_ok(states[k], events[k], mapping, match_amount, (states[k + 1], actions[k])));
    assert(states[k] is AwaitPersonalInfo);
    assert(k >= 1);
    let j = k - 1;
    assert(j + 1 == k);
    assert(submit_step_ok(states[j], events[j], mapping, match_amount, (states[j + 1], actions[j])));
    assert(states[j] is AwaitAccount);
}

} // verus!
