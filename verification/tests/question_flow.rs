use ucs_fe::error::AppError;
use ucs_fe::model::{FieldIdTranslation, MerchantRuleConfig, Question, QuestionMap};
use ucs_fe::question_flow::{question_list_step, CustomerChannels, QuestionListAction, QuestionListEvent, QuestionListState};
use ucs_fe::questions::TranslationsByLanguage;
use ucs_fe::wps::{ResetPasswordStatusResponse, ResetPasswordStatusValue};

fn rule(ip_limit: i32, acct_limit: i32) -> MerchantRuleConfig {
    MerchantRuleConfig {
        id: 1,
        merchant_code: "M1".to_string(),
        binding_type: "EMAIL".to_string(),
        passing_score: 60,
        empty_score: 0,
        lock_hour: 0,
        ip_retry_limit: ip_limit,
        account_retry_limit: acct_limit,
        questions_json: Some("{}".to_string()),
        field_translations: Some("{\"EN\":[]}".to_string()),
    }
}

fn begin() -> QuestionListEvent {
    QuestionListEvent::Begin {
        merchant_code: "M1".to_string(),
        customer_ip: "10.0.0.1".to_string(),
        customer_name: "ann".to_string(),
        language: "ZH".to_string(),
        today: "20240102".to_string(),
    }
}

fn wps(email: bool, sms: bool) -> ResetPasswordStatusResponse {
    ResetPasswordStatusResponse {
        success: true,
        value: ResetPasswordStatusValue { is_email_reset_enabled: email, is_sms_reset_enabled: sms, is_personal_info_reset_enabled: false },
    }
}

fn customer(email_verification: bool, mode: &str) -> CustomerChannels {
    CustomerChannels { email_verification, verification_mode: mode.to_string() }
}

fn question(id: &str, name: &str) -> Question {
    Question {
        field_id: id.to_string(),
        field_name: name.to_string(),
        field_attribute: "I".to_string(),
        field_type: "Social".to_string(),
        valid: true,
        score: 10,
        accuracy: String::new(),
    }
}

#[test]
fn question_list_walks_every_step() {
    let (state, action) = question_list_step(QuestionListState::Start, begin());
    match action {
        QuestionListAction::ReadRuleAndCounters { merchant_code, ip_key, acct_key } => {
            assert_eq!(merchant_code, "M1");
            assert_eq!(ip_key, "ucsfe:ql:ip:10.0.0.1:20240102");
            assert_eq!(acct_key, "ucsfe:ql:acct:M1@ann:20240102");
        }
        _ => panic!("expected a read of the rule and counters"),
    }
    let (state, action) = question_list_step(state, QuestionListEvent::RuleAndCounters { rule: Some(rule(5, 3)), ip_cnt: 4, ac_cnt: 2 });
    match action {
        QuestionListAction::CountAndReadChannels { merchant_code, ip_key, acct_key, full_name } => {
            assert_eq!(merchant_code, "M1");
            assert_eq!(ip_key, "ucsfe:ql:ip:10.0.0.1:20240102");
            assert_eq!(acct_key, "ucsfe:ql:acct:M1@ann:20240102");
            assert_eq!(full_name, "M1@ann");
        }
        _ => panic!("expected the counters to be raised"),
    }
    let (state, action) = question_list_step(state, QuestionListEvent::Channels { wps: Ok(wps(true, true)), customer: Ok(customer(false, "1")) });
    match action {
        QuestionListAction::ReadQuestions { merchant_code, questions_json, field_translations } => {
            assert_eq!(merchant_code, "M1");
            assert_eq!(questions_json.as_deref(), Some("{}"));
            assert_eq!(field_translations.as_deref(), Some("{\"EN\":[]}"));
        }
        _ => panic!("expected the questions to be read"),
    }
    let questions = QuestionMap { entries: vec![("B".to_string(), question("B", "Bank")), ("A".to_string(), question("A", "Age"))] };
    let translations = TranslationsByLanguage {
        entries: vec![(
            "EN".to_string(),
            vec![FieldIdTranslation { field_id: "A".to_string(), field_translation: "Your age".to_string() }],
        )],
    };
    let (state, action) = question_list_step(state, QuestionListEvent::Questions { questions: Some(questions), dropdowns: None, translations });
    assert!(matches!(state, QuestionListState::Done));
    match action {
        QuestionListAction::Reply(Ok(resp)) => {
            assert_eq!(resp.merchant_code, "M1");
            let ids: Vec<&str> = resp.questions.iter().map(|q| q.field_id.as_str()).collect();
            assert_eq!(ids, vec!["A", "B"]);
            assert_eq!(resp.questions[0].field_name, "Your age");
            assert_eq!(resp.questions[1].field_name, "Bank");
        }
        _ => panic!("expected the question list"),
    }
}

#[test]
fn question_list_refusals() {
    let start = || question_list_step(QuestionListState::Start, begin()).0;
    let (_, a) = question_list_step(start(), QuestionListEvent::RuleAndCounters { rule: None, ip_cnt: 0, ac_cnt: 0 });
    assert!(matches!(a, QuestionListAction::Reply(Err(AppError::MerchantNotFound(ref m))) if m == "M1"));
    let (_, a) = question_list_step(start(), QuestionListEvent::RuleAndCounters { rule: Some(rule(5, 3)), ip_cnt: 5, ac_cnt: 0 });
    assert!(matches!(a, QuestionListAction::Reply(Err(AppError::QuestionLimitExceeded))));
    let (_, a) = question_list_step(start(), QuestionListEvent::RuleAndCounters { rule: Some(rule(5, 3)), ip_cnt: 0, ac_cnt: 3 });
    assert!(matches!(a, QuestionListAction::Reply(Err(AppError::QuestionLimitExceeded))));
    let (_, a) = question_list_step(start(), QuestionListEvent::Failed(AppError::RedisNotFound));
    assert!(matches!(a, QuestionListAction::Reply(Err(AppError::RedisNotFound))));

    let channels = || question_list_step(start(), QuestionListEvent::RuleAndCounters { rule: Some(rule(5, 5)), ip_cnt: 0, ac_cnt: 0 }).0;
    let (_, a) = question_list_step(channels(), QuestionListEvent::Channels { wps: Err("down".to_string()), customer: Err("gone".to_string()) });
    assert!(matches!(a, QuestionListAction::Reply(Err(AppError::WpsApiFailed(ref m))) if m == "down"));
    let (_, a) = question_list_step(channels(), QuestionListEvent::Channels { wps: Ok(wps(false, false)), customer: Err("gone".to_string()) });
    assert!(matches!(a, QuestionListAction::Reply(Err(AppError::CustomerFetchFailed(ref m))) if m == "gone"));
    let mut failed = wps(false, false);
    failed.success = false;
    let (_, a) = question_list_step(channels(), QuestionListEvent::Channels { wps: Ok(failed), customer: Ok(customer(false, "1")) });
    assert!(matches!(a, QuestionListAction::Reply(Err(AppError::WpsApiFailed(ref m))) if m == "success=false"));
    let (_, a) = question_list_step(channels(), QuestionListEvent::Channels { wps: Ok(wps(true, false)), customer: Ok(customer(true, "1")) });
    assert!(matches!(a, QuestionListAction::Reply(Err(AppError::EmailAlreadyBound))));
    let (_, a) = question_list_step(channels(), QuestionListEvent::Channels { wps: Ok(wps(false, true)), customer: Ok(customer(true, "0")) });
    assert!(matches!(a, QuestionListAction::Reply(Err(AppError::PhoneAlreadyBound))));

    let questions = || {
        question_list_step(channels(), QuestionListEvent::Channels { wps: Ok(wps(false, false)), customer: Ok(customer(false, "0")) }).0
    };
    let empty = TranslationsByLanguage { entries: Vec::new() };
    let (_, a) = question_list_step(questions(), QuestionListEvent::Questions { questions: None, dropdowns: None, translations: empty });
    assert!(matches!(a, QuestionListAction::Reply(Err(AppError::ParseJsonFailed(ref m))) if m == "merchantCode=M1"));
}
