//! The question-list request as a sequence of steps. Each step takes what
//! the last read gave back and says what to read or answer next; the caller
//! does the reading (database, Redis, WPS, USS) between the steps.
use vstd::prelude::*;
use std::sync::Arc;
use crate::error::AppError;
use crate::model::{MerchantRuleConfig, QuestionInfo, QuestionMap};
use crate::questions::{get_valid_question_infos, infos_answer, translations_for, DropdownTable, TranslationsByLanguage};
use crate::types::MerchantRuleResponse;
use crate::verification::{acct_key, check_reset_channels, check_retry_limit, customer_full_name, ip_key};
use crate::wps::ResetPasswordStatusResponse;

verus! {

/// What a question-list request waits for.
pub enum QuestionListState {
    /// Nothing was asked yet.
    Start,
    /// The merchant rule and today's counters of the IP and the account are
    /// being read.
    AwaitRuleAndCounters {
        merchant_code: String,
        customer_name: String,
        language: String,
        ip_key: String,
        acct_key: String,
    },
    /// The counters are being raised while the reset channels and the
    /// customer are read.
    AwaitChannels { merchant_code: String, language: String, rule: MerchantRuleConfig },
    /// The questions, the dropdown options and the translations are being read.
    AwaitQuestions { merchant_code: String, language: String },
    /// The request was answered.
    Done,
}

/// What the customer's USS record says of the reset channels.
pub struct CustomerChannels {
    pub email_verification: bool,
    pub verification_mode: String,
}

/// What came back of the last reads.
pub enum QuestionListEvent {
    /// The request arrived, on day `today` (`%Y%m%d`).
    Begin { merchant_code: String, customer_ip: String, customer_name: String, language: String, today: String },
    /// The merchant rule, if there is one, and today's counts.
    RuleAndCounters { rule: Option<MerchantRuleConfig>, ip_cnt: i64, ac_cnt: i64 },
    /// The reset channels from WPS and the customer from USS, or why each failed.
    Channels { wps: Result<ResetPasswordStatusResponse, String>, customer: Result<CustomerChannels, String> },
    /// The merchant's questions (`None` when they cannot be read), its
    /// dropdown options if cached, and its field translations by language.
    Questions { questions: Option<QuestionMap>, dropdowns: Option<Arc<DropdownTable>>, translations: TranslationsByLanguage },
    /// A read failed.
    Failed(AppError),
}

/// What the caller does next.
pub enum QuestionListAction {
    /// Read the merchant's rule and the counters under the two keys.
    ReadRuleAndCounters { merchant_code: String, ip_key: String, acct_key: String },
    /// Raise both counters, and read the merchant's reset channels and the
    /// customer of that full name.
    CountAndReadChannels { merchant_code: String, ip_key: String, acct_key: String, full_name: String },
    /// Read the merchant's questions, dropdown options and translations from
    /// these configuration texts.
    ReadQuestions { merchant_code: String, questions_json: Option<String>, field_translations: Option<String> },
    /// Answer the request.
    Reply(Result<MerchantRuleResponse, AppError>),
}

/// Whether `event` is one that `state` waits for: any failure before the
/// answer, else the event of the state.
pub open spec fn accepts(state: QuestionListState, event: QuestionListEvent) -> bool {
    match state {
        QuestionListState::Start => event is Begin,
        QuestionListState::AwaitRuleAndCounters { .. } => event is RuleAndCounters || event is Failed,
        QuestionListState::AwaitChannels { .. } => event is Channels || event is Failed,
        QuestionListState::AwaitQuestions { .. } => event is Questions || event is Failed,
        QuestionListState::Done => false,
    }
}

/// Whether `r` answers with `infos` turned into the question-list answer of
/// the merchant.
pub open spec fn reply_of_infos(
    r: Result<MerchantRuleResponse, AppError>,
    infos: Result<Vec<QuestionInfo>, AppError>,
    merchant_code: Seq<char>,
) -> bool {
    match infos {
        Ok(list) => r matches Ok(resp) && resp.merchant_code@ == merchant_code && resp.questions@ == list@,
        Err(e) => r == Err::<MerchantRuleResponse, AppError>(e),
    }
}

/// The step after `RuleAndCounters` in `AwaitRuleAndCounters`.
pub open spec fn rule_step_ok(
    merchant_code: Seq<char>,
    customer_name: Seq<char>,
    language: Seq<char>,
    ipk: Seq<char>,
    ack: Seq<char>,
    rule: Option<MerchantRuleConfig>,
    ip_cnt: i64,
    ac_cnt: i64,
    r: (QuestionListState, QuestionListAction),
) -> bool {
    match rule {
        None => r.0 is Done && (r.1 matches QuestionListAction::Reply(Err(AppError::MerchantNotFound(m)))
            && m@ == merchant_code),
        Some(cfg) => if ip_cnt >= cfg.ip_retry_limit || ac_cnt >= cfg.account_retry_limit {
            r.0 is Done && r.1 == QuestionListAction::Reply(Err(AppError::QuestionLimitExceeded))
        } else {
            (r.0 matches QuestionListState::AwaitChannels { merchant_code: mc, language: lang, rule: kept }
                && mc@ == merchant_code && lang@ == language && kept == cfg)
            && (r.1 matches QuestionListAction::CountAndReadChannels { merchant_code: mc2, ip_key: k1, acct_key: k2, full_name: n }
                && mc2@ == merchant_code && k1@ == ipk && k2@ == ack && n@ == merchant_code + "@"@ + customer_name)
        },
    }
}

/// The step after `Channels` in `AwaitChannels`: a WPS failure first, then a
/// USS failure, then the channel check; when it passes, the questions are read.
pub open spec fn channels_step_ok(
    merchant_code: Seq<char>,
    language: Seq<char>,
    rule: MerchantRuleConfig,
    wps: Result<ResetPasswordStatusResponse, String>,
    customer: Result<CustomerChannels, String>,
    r: (QuestionListState, QuestionListAction),
) -> bool {
    match wps {
        Err(m) => r.0 is Done && (r.1 matches QuestionListAction::Reply(Err(AppError::WpsApiFailed(e))) && e@ == m@),
        Ok(w) => match customer {
            Err(m) => r.0 is Done && (r.1 matches QuestionListAction::Reply(Err(AppError::CustomerFetchFailed(e)))
                && e@ == m@),
            Ok(c) => if !w.success {
                r.0 is Done && (r.1 matches QuestionListAction::Reply(Err(AppError::WpsApiFailed(e))) && e@
                    == "success=false"@)
            } else if w.value.is_email_reset_enabled && c.email_verification {
                r.0 is Done && r.1 == QuestionListAction::Reply(Err(AppError::EmailAlreadyBound))
            } else if w.value.is_sms_reset_enabled && c.verification_mode@ == "0"@ {
                r.0 is Done && r.1 == QuestionListAction::Reply(Err(AppError::PhoneAlreadyBound))
            } else {
                (r.0 matches QuestionListState::AwaitQuestions { merchant_code: mc, language: lang } && mc@
                    == merchant_code && lang@ == language) && (r.1 matches QuestionListAction::ReadQuestions {
                    merchant_code: mc2,
                    questions_json: q,
                    field_translations: t,
                } && mc2@ == merchant_code && q == rule.questions_json && t == rule.field_translations)
            },
        },
    }
}

/// The step after `Begin` in `Start`: the counter keys of the IP and the
/// account for the day, and a read of the rule and both counters.
pub open spec fn begin_step_ok(event: QuestionListEvent, r: (QuestionListState, QuestionListAction)) -> bool {
    event matches QuestionListEvent::Begin { merchant_code, customer_ip, customer_name, language, today }
        && (r.0 matches QuestionListState::AwaitRuleAndCounters { merchant_code: mc, customer_name: cn, language: lang, ip_key: k1, acct_key: k2 }
            && mc@ == merchant_code@ && cn@ == customer_name@ && lang@ == language@
            && k1@ == "ucsfe:ql:ip:"@ + customer_ip@ + ":"@ + today@
            && k2@ == "ucsfe:ql:acct:"@ + merchant_code@ + "@"@ + customer_name@ + ":"@ + today@)
        && (r.1 matches QuestionListAction::ReadRuleAndCounters { merchant_code: mc2, ip_key: a1, acct_key: a2 }
            && mc2@ == merchant_code@ && a1@ == "ucsfe:ql:ip:"@ + customer_ip@ + ":"@ + today@
            && a2@ == "ucsfe:ql:acct:"@ + merchant_code@ + "@"@ + customer_name@ + ":"@ + today@)
}

/// The step after `Questions` in `AwaitQuestions`: the merchant's listed
/// questions, as shown in the request's language, sorted by field id.
pub open spec fn questions_step_ok(
    merchant_code: Seq<char>,
    language: Seq<char>,
    questions: Option<QuestionMap>,
    dropdowns: Option<Arc<DropdownTable>>,
    translations: TranslationsByLanguage,
    r: (QuestionListState, QuestionListAction),
) -> bool {
    r.0 is Done && (r.1 matches QuestionListAction::Reply(res) && exists|infos: Result<Vec<QuestionInfo>, AppError>|
        infos_answer(
            infos,
            match questions {
                Some(qm) => Some(qm.entries@),
                None => None,
            },
            merchant_code,
            match dropdowns {
                Some(t) => Some((*t).entries@),
                None => None,
            },
            translations_for(translations.entries@, language),
        ) && #[trigger] reply_of_infos(res, infos, merchant_code))
}

/// What one step does: a failed read is answered with its error, and each
/// state goes on as its step says.
pub open spec fn step_ok(state: QuestionListState, event: QuestionListEvent, r: (QuestionListState, QuestionListAction)) -> bool {
    &&& event matches QuestionListEvent::Failed(e) ==> r.0 is Done && r.1 == QuestionListAction::Reply(
        Err::<MerchantRuleResponse, AppError>(e),
    )
    &&& state is Start ==> begin_step_ok(event, r)
    &&& state matches QuestionListState::AwaitRuleAndCounters { merchant_code, customer_name, language, ip_key, acct_key }
        ==> (event matches QuestionListEvent::RuleAndCounters { rule, ip_cnt, ac_cnt } ==> rule_step_ok(
        merchant_code@,
        customer_name@,
        language@,
        ip_key@,
        acct_key@,
        rule,
        ip_cnt,
        ac_cnt,
        r,
    ))
    &&& state matches QuestionListState::AwaitChannels { merchant_code, language, rule }
        ==> (event matches QuestionListEvent::Channels { wps, customer } ==> channels_step_ok(
        merchant_code@,
        language@,
        rule,
        wps,
        customer,
        r,
    ))
    &&& state matches QuestionListState::AwaitQuestions { merchant_code, language }
        ==> (event matches QuestionListEvent::Questions { questions, dropdowns, translations } ==> questions_step_ok(
        merchant_code@,
        language@,
        questions,
        dropdowns,
        translations,
        r,
    ))
}

/// One step of a question-list request: from the state and what came back,
/// the next state and what to do.
pub fn question_list_step(state: QuestionListState, event: QuestionListEvent) -> (r: (QuestionListState, QuestionListAction))
    requires
        accepts(state, event),
    ensures
        step_ok(state, event, r),
{
    match event {
        QuestionListEvent::Failed(e) => (QuestionListState::Done, QuestionListAction::Reply(Err(e))),
        QuestionListEvent::Begin { merchant_code, customer_ip, customer_name, language, today } => {
            let ipk = ip_key(customer_ip.as_str(), today.as_str());
            let ack = acct_key(merchant_code.as_str(), customer_name.as_str(), today.as_str());
            let action = QuestionListAction::ReadRuleAndCounters {
                merchant_code: merchant_code.clone(),
                ip_key: ipk.clone(),
                acct_key: ack.clone(),
            };
            (QuestionListState::AwaitRuleAndCounters { merchant_code, customer_name, language, ip_key: ipk, acct_key: ack }, action)
        },
        QuestionListEvent::RuleAndCounters { rule, ip_cnt, ac_cnt } => {
            match state {
                QuestionListState::AwaitRuleAndCounters { merchant_code, customer_name, language, ip_key, acct_key } => {
                    match rule {
                        None => {
                            let e = AppError::MerchantNotFound(merchant_code);
                            (QuestionListState::Done, QuestionListAction::Reply(Err(e)))
                        },
                        Some(cfg) => {
                            match check_retry_limit(ip_cnt, cfg.ip_retry_limit, ac_cnt, cfg.account_retry_limit) {
                                Err(e) => (QuestionListState::Done, QuestionListAction::Reply(Err(e))),
                                Ok(()) => {
                                    let full_name = customer_full_name(merchant_code.as_str(), customer_name.as_str());
                                    let action = QuestionListAction::CountAndReadChannels {
                                        merchant_code: merchant_code.clone(),
                                        ip_key,
                                        acct_key,
                                        full_name,
                                    };
                                    (QuestionListState::AwaitChannels { merchant_code, language, rule: cfg }, action)
                                },
                            }
                        },
                    }
                },
                _ => {
                    proof {
                        assert(false);
                    }
                    (QuestionListState::Done, QuestionListAction::Reply(Err(AppError::QuestionLimitExceeded)))
                },
            }
        },
        QuestionListEvent::Channels { wps, customer } => {
            match state {
                QuestionListState::AwaitChannels { merchant_code, language, rule } => {
                    match wps {
                        Err(m) => (QuestionListState::Done, QuestionListAction::Reply(Err(AppError::WpsApiFailed(m)))),
                        Ok(w) => match customer {
                            Err(m) => (
                                QuestionListState::Done,
                                QuestionListAction::Reply(Err(AppError::CustomerFetchFailed(m))),
                            ),
                            Ok(c) => {
                                match check_reset_channels(&w, c.email_verification, c.verification_mode.as_str()) {
                                    Err(e) => (QuestionListState::Done, QuestionListAction::Reply(Err(e))),
                                    Ok(()) => {
                                        let action = QuestionListAction::ReadQuestions {
                                            merchant_code: merchant_code.clone(),
                                            questions_json: rule.questions_json,
                                            field_translations: rule.field_translations,
                                        };
                                        (QuestionListState::AwaitQuestions { merchant_code, language }, action)
                                    },
                                }
                            },
                        },
                    }
                },
                _ => {
                    proof {
                        assert(false);
                    }
                    (QuestionListState::Done, QuestionListAction::Reply(Err(AppError::QuestionLimitExceeded)))
                },
            }
        },
        QuestionListEvent::Questions { questions, dropdowns, translations } => {
            match state {
                QuestionListState::AwaitQuestions { merchant_code, language } => {
                    let picked = translations.get_translations_by_language(language.as_str());
                    let dd: Option<&DropdownTable> = match &dropdowns {
                        Some(t) => Some(&**t),
                        None => None,
                    };
                    let infos = get_valid_question_infos(questions.as_ref(), merchant_code.as_str(), dd, &picked);
                    let ghost infos_g = infos;
                    let ghost mc_g = merchant_code@;
                    let reply = match infos {
                        Ok(list) => Ok(MerchantRuleResponse { merchant_code, questions: list }),
                        Err(e) => Err(e),
                    };
                    assert(reply_of_infos(reply, infos_g, mc_g));
                    (QuestionListState::Done, QuestionListAction::Reply(reply))
                },
                _ => {
                    proof {
                        assert(false);
                    }
                    (QuestionListState::Done, QuestionListAction::Reply(Err(AppError::QuestionLimitExceeded)))
                },
            }
        },
    }
}

/// Whether `states`, `events` and `actions` are a run of question-list
/// steps from the start: each event is one its state waits for, and each
/// step goes as `question_list_step` says.
pub open spec fn is_run(states: Seq<QuestionListState>, events: Seq<QuestionListEvent>, actions: Seq<QuestionListAction>) -> bool {
    &&& states.len() == events.len() + 1
    &&& actions.len() == events.len()
    &&& states[0] is Start
    &&& forall|k: int|
        0 <= k < events.len() ==> accepts(states[k], events[k]) && #[trigger] step_ok(
            states[k],
            events[k],
            (states[k + 1], actions[k]),
        )
}

/// Whether the counts of `event` were read with a rule and were under both
/// of its limits.
pub open spec fn within_limits(event: QuestionListEvent) -> bool {
    event matches QuestionListEvent::RuleAndCounters { rule: Some(cfg), ip_cnt, ac_cnt } && ip_cnt
        < cfg.ip_retry_limit && ac_cnt < cfg.account_retry_limit
}

/// Whether `event` brought a WPS answer and a customer that leave the
/// player no reset channel of their own.
pub open spec fn channels_closed(event: QuestionListEvent) -> bool {
    event matches QuestionListEvent::Channels { wps: Ok(w), customer: Ok(c) } && w.success && !(
    w.value.is_email_reset_enabled && c.email_verification) && !(w.value.is_sms_reset_enabled
        && c.verification_mode@ == "0"@)
}

/// A question list is only handed out to a request whose rule was found and
/// whose IP and account were under their daily limits, which was then
/// counted, and whose reset channels were closed, in that order.
pub proof fn lemma_questions_only_after_checks(
    states: Seq<QuestionListState>,
    events: Seq<QuestionListEvent>,
    actions: Seq<QuestionListAction>,
    n: int,
)
    requires
        is_run(states, events, actions),
        0 <= n < actions.len(),
        actions[n] matches QuestionListAction::Reply(Ok(_)),
    ensures
        n >= 2,
        within_limits(events[n - 2]),
        actions[n - 2] is CountAndReadChannels,
        channels_closed(events[n - 1]),
{
    assert(step_ok(states[n], events[n], (states[n + 1], actions[n])));
    assert(states[n] is AwaitQuestions);
    assert(n >= 1);
    let k = n - 1;
    assert(k + 1 == n);
    assert(step_ok(states[k], events[k], (states[k + 1], actions[k])));
    assert(states[k] is AwaitChannels);
    assert(k >= 1);
    let j = k - 1;
    assert(j + 1 == k);
    assert(step_ok(states[j], events[j], (states[j + 1], actions[j])));
    assert(states[j] is AwaitRuleAndCounters);
}

/// A request refused for its daily limits is answered at once and not counted.
pub proof fn lemma_refused_requests_are_not_counted(
    states: Seq<QuestionListState>,
    events: Seq<QuestionListEvent>,
    actions: Seq<QuestionListAction>,
    n: int,
)
    requires
        is_run(states, events, actions),
        0 <= n < actions.len(),
        actions[n] is CountAndReadChannels,
    ensures
        within_limits(events[n]),
{
    assert(step_ok(states[n], events[n], (states[n + 1], actions[n])));
}

} // verus!
