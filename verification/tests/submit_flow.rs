use ucs_fe::error::AppError;
use ucs_fe::mcs::{VerifyFinanceHistoryResp, VerifyFinanceHistoryResult, VerifyPlayerFinanceInfoResult, VerifyPlayerHistoryResult};
use ucs_fe::model::{MerchantRuleConfig, Question, QuestionMap};
use ucs_fe::submit_flow::{submit_step, SubmitAction, SubmitEvent, SubmitState};
use ucs_fe::types::{SubmitVerifyRequest, VerifyDataItem, VerifyItem};
use ucs_fe::uss::{NullInt32, NullString, PasswordResetTokenResponse, ScoringProfile};
use ucs_fe::uss_mapping::UssMappingCache;

fn s(v: &str) -> NullString {
    NullString { val: v.to_string(), valid: !v.is_empty() }
}

fn n(v: i32) -> NullInt32 {
    NullInt32 { val: v, valid: true }
}

fn player() -> ScoringProfile {
    ScoringProfile {
        email: s("ann@example.com"),
        nickname: s("annie"),
        qq_no: s(""),
        wechat: s(""),
        line_id: s(""),
        face_book_id: s(""),
        whats_app_id: s(""),
        zalo: s(""),
        telegram: s(""),
        viber: s(""),
        twitter: s(""),
        mobile_no: s(""),
        address: s(""),
        payee_name: s(""),
        id_number: s(""),
        zip_code: s(""),
        apple_id: s(""),
        marital_status: n(-1),
        gender: n(1),
        occupation: n(0),
        source_of_income: n(0),
        id_type: n(0),
        birthday: String::new(),
        last_login_time: String::new(),
        reg_date: String::new(),
        place_of_birth: s(""),
        region: s(""),
        permanent_address: s(""),
        nationality: s(""),
        us_state: n(0),
        google: s(""),
        kakao: s(""),
    }
}

fn rule_cfg() -> MerchantRuleConfig {
    MerchantRuleConfig {
        id: 1,
        merchant_code: "M1".to_string(),
        binding_type: "EMAIL".to_string(),
        passing_score: 60,
        empty_score: 0,
        lock_hour: 0,
        ip_retry_limit: 5,
        account_retry_limit: 5,
        questions_json: Some("{...}".to_string()),
        field_translations: None,
    }
}

fn ask(id: &str, score: i32) -> Question {
    Question {
        field_id: id.to_string(),
        field_name: id.to_string(),
        field_attribute: "I".to_string(),
        field_type: "Social".to_string(),
        valid: true,
        score,
        accuracy: String::new(),
    }
}

fn bound_answer(id: &str, value: &str) -> VerifyDataItem {
    VerifyDataItem { item: VerifyItem { field_id: id.to_string(), field_value: value.to_string() }, bind: true }
}

fn mcs_answer(bank_account: i32) -> VerifyFinanceHistoryResp {
    VerifyFinanceHistoryResp {
        success: true,
        value: VerifyFinanceHistoryResult {
            verify_player_finance_info: VerifyPlayerFinanceInfoResult {
                bc_number: bank_account,
                bc_holder_name: 0,
                bc_bank_code: 0,
                bc_sub_branch: 0,
                bc_city: 0,
                bc_province: 0,
                vw_address: 0,
                vw_holder_name: 0,
                vw_bank_code: 0,
                ew_account: 0,
                ew_holder_name: 0,
                ew_bank_code: 0,
            },
            verify_player_history_info: VerifyPlayerHistoryResult {
                last_deposit_amount: 0,
                last_deposit_method: 0,
                last_deposit_time: 0,
                last_withdraw_amount: 0,
                last_withdraw_method: 0,
                last_withdraw_time: 0,
            },
        },
    }
}

fn no_amounts(_s: &str, _e: &str, _a: &str) -> bool {
    false
}

fn begun() -> SubmitState {
    let req = SubmitVerifyRequest { customer_name: "ann".to_string(), data: vec![bound_answer("EMAIL", "ANN@example.com"), bound_answer("BANK_ACCOUNT", "123")] };
    let cache = UssMappingCache::new();
    submit_step(SubmitState::Start, SubmitEvent::Begin { merchant_code: "M1".to_string(), customer_ip: "10.0.0.9".to_string(), request: req }, &cache, &no_amounts).0
}

fn token(ok: bool) -> PasswordResetTokenResponse {
    PasswordResetTokenResponse { success: ok, value: "otp-1".to_string() }
}

#[test]
fn submission_walks_every_step() {
    let cache = UssMappingCache::new();
    let req = SubmitVerifyRequest { customer_name: "ann".to_string(), data: vec![bound_answer("EMAIL", "ANN@example.com"), bound_answer("BANK_ACCOUNT", "123")] };
    let (state, action) =
        submit_step(SubmitState::Start, SubmitEvent::Begin { merchant_code: "M1".to_string(), customer_ip: "10.0.0.9".to_string(), request: req }, &cache, &no_amounts);
    match action {
        SubmitAction::ReadAccount { full_name, customer_name, merchant_code } => {
            assert_eq!(full_name, "M1@ann");
            assert_eq!(customer_name, "ann");
            assert_eq!(merchant_code, "M1");
        }
        _ => panic!("expected the account to be read"),
    }
    let (state, action) = submit_step(state, SubmitEvent::Account { customer_id: Ok(77), token: Ok(token(true)), rule: Ok(Some(rule_cfg())) }, &cache, &no_amounts);
    match action {
        SubmitAction::ReadPersonalInfo { customer_id, questions_json } => {
            assert_eq!(customer_id, 77);
            assert_eq!(questions_json.as_deref(), Some("{...}"));
        }
        _ => panic!("expected the personal information to be read"),
    }
    let questions = QuestionMap { entries: vec![("EMAIL".to_string(), ask("EMAIL", 30)), ("BANK_ACCOUNT".to_string(), ask("BANK_ACCOUNT", 40))] };
    let (state, action) = submit_step(state, SubmitEvent::PersonalInfo { profile: Ok(player()), questions: Some(questions) }, &cache, &no_amounts);
    match action {
        SubmitAction::CallMcs { headers, request } => {
            assert_eq!(headers.customer_id, "77");
            assert_eq!(headers.customer_name, "ann");
            assert_eq!(headers.merchant, "M1");
            assert_eq!(headers.customer_ip, "10.0.0.9");
            assert_eq!(request.verify_player_finance_info.bc_number, "123");
        }
        _ => panic!("expected MCS to be asked"),
    }
    let (state, action) = submit_step(state, SubmitEvent::McsAnswered(Ok(mcs_answer(3))), &cache, &no_amounts);
    assert!(matches!(state, SubmitState::Done));
    match action {
        SubmitAction::Score { merchant_code, customer_ip, customer_name, customer_id, one_time_password, rule, qa } => {
            assert_eq!(merchant_code, "M1");
            assert_eq!(customer_ip, "10.0.0.9");
            assert_eq!(customer_name, "ann");
            assert_eq!(customer_id, 77);
            assert_eq!(one_time_password, "otp-1");
            assert_eq!(rule.passing_score, 60);
            let email = qa.entries.iter().find(|q| q.field_id == "EMAIL").unwrap();
            assert!(email.correct);
            assert_eq!(email.score, 30);
            let bank = qa.entries.iter().find(|q| q.field_id == "BANK_ACCOUNT").unwrap();
            assert!(bank.correct);
            assert_eq!(bank.score, 40);
        }
        _ => panic!("expected the submission to be scored"),
    }
}

#[test]
fn submission_refusals() {
    let cache = UssMappingCache::new();
    let account = |customer_id: Result<i64, String>, tok: Result<PasswordResetTokenResponse, String>, rule: Result<Option<MerchantRuleConfig>, String>| {
        submit_step(begun(), SubmitEvent::Account { customer_id, token: tok, rule }, &cache, &no_amounts).1
    };
    let a = account(Err("no customer".to_string()), Err("no token".to_string()), Err("db".to_string()));
    assert!(matches!(a, SubmitAction::Refuse(AppError::CustomerFetchFailed(ref m)) if m == "no customer"));
    let a = account(Ok(1), Err("no token".to_string()), Err("db".to_string()));
    assert!(matches!(a, SubmitAction::Refuse(AppError::PasswordResetFailed(ref m)) if m == "no token"));
    let a = account(Ok(1), Ok(token(false)), Ok(Some(rule_cfg())));
    assert!(matches!(a, SubmitAction::Refuse(AppError::PasswordResetFailed(ref m)) if m == "USS returned failure"));
    let a = account(Ok(1), Ok(token(true)), Err("db down".to_string()));
    assert!(matches!(a, SubmitAction::Refuse(AppError::Internal(ref m)) if m == "db down"));
    let a = account(Ok(1), Ok(token(true)), Ok(None));
    assert!(matches!(a, SubmitAction::Refuse(AppError::MerchantNotFound(ref m)) if m == "M1"));

    let personal = || submit_step(begun(), SubmitEvent::Account { customer_id: Ok(1), token: Ok(token(true)), rule: Ok(Some(rule_cfg())) }, &cache, &no_amounts).0;
    let (_, a) = submit_step(personal(), SubmitEvent::PersonalInfo { profile: Err("gone".to_string()), questions: None }, &cache, &no_amounts);
    assert!(matches!(a, SubmitAction::Refuse(AppError::CustomerPersonalInfoFetchFailed(ref m)) if m == "gone"));
    let (_, a) = submit_step(personal(), SubmitEvent::PersonalInfo { profile: Ok(player()), questions: None }, &cache, &no_amounts);
    assert!(matches!(a, SubmitAction::Refuse(AppError::ParseJsonFailed(ref m)) if m == "merchantCode=M1"));

    let questions = QuestionMap { entries: vec![("EMAIL".to_string(), ask("EMAIL", 30))] };
    let mcs = submit_step(personal(), SubmitEvent::PersonalInfo { profile: Ok(player()), questions: Some(questions) }, &cache, &no_amounts).0;
    let (_, a) = submit_step(mcs, SubmitEvent::McsAnswered(Err("timeout".to_string())), &cache, &no_amounts);
    assert!(matches!(a, SubmitAction::Refuse(AppError::VerifyPlayerInfoFailed(ref m)) if m == "timeout"));
    let (_, a) = submit_step(begun(), SubmitEvent::Failed(AppError::RedisNotFound), &cache, &no_amounts);
    assert!(matches!(a, SubmitAction::Refuse(AppError::RedisNotFound)));
}
