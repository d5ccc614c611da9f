use ucs_fe::error::{AppError, ErrorResponse, Module, ErrorCode};
use ucs_fe::finance_history::{apply_field_setters, finance_setters, history_setters};
use ucs_fe::handler::{materials_body_invalid, materials_data_missing, materials_failure, question_list_failure, question_list_param_error, Reply};
use ucs_fe::mcs::VerifyFinanceHistoryReq;
use ucs_fe::model::{DropdownItem, FieldIdTranslation, MerchantRuleConfig, QaTable, Question, QuestionMap, QA};
use ucs_fe::questions::{find_translation, get_valid_question_infos, DropdownTable, TranslationsByLanguage};
use ucs_fe::types::{VerifyDataItem, VerifyItem};
use ucs_fe::uss::PasswordResetTokenResponse;
use ucs_fe::verification::{
    acct_key, actual_score, build_mcs_request, check_reset_channels, check_retry_limit, customer_full_name,
    financial_answer_maps, ip_key, player_headers, require_merchant_rule, submit_outcome, token_password,
};
use ucs_fe::wps::{ResetPasswordStatusResponse, ResetPasswordStatusValue};

fn rule(passing: i32) -> MerchantRuleConfig {
    MerchantRuleConfig {
        id: 1,
        merchant_code: "m1".to_string(),
        binding_type: "EMAIL".to_string(),
        passing_score: passing,
        empty_score: 0,
        lock_hour: 0,
        ip_retry_limit: 3,
        account_retry_limit: 2,
        questions_json: None,
        field_translations: None,
    }
}

fn q(id: &str, attr: &str, valid: bool, accuracy: &str) -> Question {
    Question {
        field_id: id.to_string(),
        field_name: format!("{id} name"),
        field_attribute: attr.to_string(),
        field_type: "Social".to_string(),
        valid,
        score: 10,
        accuracy: accuracy.to_string(),
    }
}

fn item(id: &str, value: &str, bind: bool) -> VerifyDataItem {
    VerifyDataItem { item: VerifyItem { field_id: id.to_string(), field_value: value.to_string() }, bind }
}

fn wps(success: bool, email: bool, sms: bool) -> ResetPasswordStatusResponse {
    ResetPasswordStatusResponse {
        success,
        value: ResetPasswordStatusValue { is_email_reset_enabled: email, is_sms_reset_enabled: sms, is_personal_info_reset_enabled: false },
    }
}

fn error_of(r: &Reply) -> (u16, String, String) {
    match r {
        Reply::Error { status, body } => (*status, body.error_code.clone(), body.message.clone()),
        _ => panic!("not an error reply"),
    }
}

#[test]
fn redis_keys_and_names() {
    assert_eq!(ip_key("1.2.3.4", "20260320"), "ucsfe:ql:ip:1.2.3.4:20260320");
    assert_eq!(acct_key("m1", "bob", "20260320"), "ucsfe:ql:acct:m1@bob:20260320");
    assert_eq!(customer_full_name("m1", "bob"), "m1@bob");
}

#[test]
fn retry_limits() {
    assert!(check_retry_limit(2, 3, 1, 2).is_ok());
    assert!(matches!(check_retry_limit(3, 3, 0, 2), Err(AppError::QuestionLimitExceeded)));
    assert!(matches!(check_retry_limit(0, 3, 2, 2), Err(AppError::QuestionLimitExceeded)));
}

#[test]
fn reset_channels() {
    assert!(check_reset_channels(&wps(true, false, false), true, "0").is_ok());
    assert!(matches!(check_reset_channels(&wps(false, true, true), true, "0"), Err(AppError::WpsApiFailed(m)) if m == "success=false"));
    assert!(matches!(check_reset_channels(&wps(true, true, true), true, "0"), Err(AppError::EmailAlreadyBound)));
    assert!(matches!(check_reset_channels(&wps(true, false, true), true, "0"), Err(AppError::PhoneAlreadyBound)));
    assert!(check_reset_channels(&wps(true, false, true), true, "1").is_ok());
}

#[test]
fn rule_and_token() {
    assert!(matches!(require_merchant_rule::<u8>("m9", None), Err(AppError::MerchantNotFound(m)) if m == "m9"));
    assert_eq!(require_merchant_rule("m9", Some(4u8)).ok(), Some(4));
    let ok = PasswordResetTokenResponse { success: true, value: "otp-1".to_string() };
    assert_eq!(token_password(&ok).ok(), Some("otp-1".to_string()));
    let bad = PasswordResetTokenResponse { success: false, value: String::new() };
    assert!(matches!(token_password(&bad), Err(AppError::PasswordResetFailed(m)) if m == "USS returned failure"));
}

#[test]
fn submission_outcome() {
    let pass = submit_outcome(60, &rule(60), "otp".to_string());
    assert!(pass.score_checked);
    assert_eq!(pass.bind_type, Some("EMAIL".to_string()));
    assert_eq!(pass.one_time_password, Some("otp".to_string()));
    let fail = submit_outcome(59, &rule(60), "otp".to_string());
    assert!(!fail.score_checked);
    assert!(fail.bind_type.is_none() && fail.one_time_password.is_none());
    let mut t = QaTable::new();
    t.insert(QA { field_id: "A".to_string(), field_type: "x".to_string(), correct: true, score: 35, total_score: 35 });
    t.insert(QA { field_id: "B".to_string(), field_type: "x".to_string(), correct: true, score: 25, total_score: 25 });
    assert_eq!(actual_score(&t), 60);
    let h = player_headers(77, "bob", "m1", "1.1.1.1");
    assert_eq!(h.customer_id, "77");
    assert_eq!(h.customer_ip, "1.1.1.1");
}

#[test]
fn mcs_request_from_answers() {
    let items = vec![
        item("BANK_ACCOUNT", "6222", true),
        item("CARD_HOLDER_NAME", "", true),
        item("LAST_DEPOSIT_AMOUNT", "100", true),
        item("E_WALLET_ACCOUNT", "ew", false),
        item("EMAIL", "x@y", true),
    ];
    let (values, binds) = financial_answer_maps(&items);
    assert_eq!(values.len(), 4);
    assert_eq!(binds.len(), 4);
    let questions = QuestionMap {
        entries: vec![
            ("BANK_ACCOUNT".to_string(), q("BANK_ACCOUNT", "I", true, "")),
            ("LAST_DEPOSIT_AMOUNT".to_string(), q("LAST_DEPOSIT_AMOUNT", "I", true, "10%")),
        ],
    };
    let req = build_mcs_request(&values, &binds, &questions);
    assert_eq!(req.verify_player_finance_info.bc_number, "6222");
    assert_eq!(req.verify_player_finance_info.bc_holder_name, "NULL");
    assert_eq!(req.verify_player_finance_info.ew_account, "");
    assert_eq!(req.verify_player_history_info.last_deposit_amount, "100");
    assert_eq!(req.verify_player_history_info.last_deposit_amount_range, "10%");
    let mut r2 = VerifyFinanceHistoryReq::empty();
    apply_field_setters(&finance_setters(), &mut r2, &values, &binds, &questions);
    apply_field_setters(&history_setters(), &mut r2, &values, &binds, &questions);
    assert_eq!(r2.verify_player_finance_info.bc_number, "6222");
}

#[test]
fn question_list_is_filtered_and_sorted() {
    let qm = QuestionMap {
        entries: vec![
            ("k1".to_string(), q("NICKNAME", "I", true, "")),
            ("k2".to_string(), q("GENDER", "DD", true, "")),
            ("k3".to_string(), q("EMAIL", "I", false, "")),
            ("k4".to_string(), q("LAST_DEPOSIT_TIME", "I", true, "")),
            ("k5".to_string(), q("", "I", true, "")),
            ("k6".to_string(), q("BANK_ACCOUNT", "I", true, "")),
        ],
    };
    let dd = DropdownTable { entries: vec![("GENDER".to_string(), vec![DropdownItem { dropdown_value: "M".to_string(), dropdown_id: 1 }])] };
    let tr = vec![FieldIdTranslation { field_id: "NICKNAME".to_string(), field_translation: "昵称".to_string() }];
    let infos = get_valid_question_infos(Some(&qm), "m1", Some(&dd), &tr).ok().unwrap();
    let ids: Vec<&str> = infos.iter().map(|i| i.field_id.as_str()).collect();
    assert_eq!(ids, vec!["BANK_ACCOUNT", "GENDER", "NICKNAME"]);
    assert_eq!(infos[2].field_name, "昵称");
    assert_eq!(infos[0].field_name, "BANK_ACCOUNT name");
    assert_eq!(infos[1].field_dropdown_list.as_ref().unwrap()[0].dropdown_value, "M");
    assert!(infos[0].field_dropdown_list.is_none());
    assert!(matches!(get_valid_question_infos(None, "m1", None, &tr), Err(AppError::ParseJsonFailed(m)) if m == "merchantCode=m1"));
}

#[test]
fn translations_fall_back_to_english() {
    let t = TranslationsByLanguage {
        entries: vec![
            ("EN".to_string(), vec![FieldIdTranslation { field_id: "A".to_string(), field_translation: "a".to_string() }]),
            ("ZH".to_string(), vec![FieldIdTranslation { field_id: "A".to_string(), field_translation: "甲".to_string() }]),
        ],
    };
    assert_eq!(t.get_translations_by_language("ZH")[0].field_translation, "甲");
    assert_eq!(t.get_translations_by_language("VI")[0].field_translation, "a");
    assert_eq!(find_translation(&t.get_translations_by_language("EN"), "A"), Some("a".to_string()));
    assert_eq!(find_translation(&t.get_translations_by_language("EN"), "B"), None);
}

#[test]
fn handler_replies() {
    let r = question_list_param_error("", "ip", "EN", "bob").unwrap();
    assert_eq!(error_of(&r), (400, "ucsfe.questions.merchant_param_missing".to_string(), "merchant header is required".to_string()));
    assert!(question_list_param_error("m1", "ip", "EN", "bob").is_none());
    let l = question_list_failure(&AppError::QuestionLimitExceeded);
    assert_eq!(error_of(&l).1, "ucsfe.questions.retry_limit_exhausted");
    match question_list_failure(&AppError::EmailAlreadyBound) {
        Reply::ResetStatus(s) => assert!(s.success && s.value.is_email_reset_enabled && !s.value.is_sms_reset_enabled),
        _ => panic!("expected the reset channels"),
    }
    match question_list_failure(&AppError::OracleError("down".to_string())) {
        Reply::Internal(b) => {
            assert_eq!(b.error_code, "ucs-fe.oracle.sql_execution_fail");
            assert_eq!(b.message, "oracle error: down");
        },
        _ => panic!("expected an internal error"),
    }
    assert_eq!(error_of(&materials_body_invalid()).1, "ucsfe.materials.param_invalid");
    assert!(materials_data_missing(0).is_some());
    assert!(materials_data_missing(2).is_none());
    assert_eq!(error_of(&materials_failure(&AppError::MerchantNotFound("m".to_string()))).1, "ucsfe.materials.merchant_rule_not_found");
}

#[test]
fn error_codes() {
    let e = AppError::ParseJsonFailed("bad".to_string());
    assert_eq!(e.message(), "parse JSON failed: bad");
    let b = e.to_error_response();
    assert_eq!(b.error_code, "ucs-fe.non.json_err");
    assert!(!b.success);
    let n = ErrorResponse::new(&Module::Redis, &ErrorCode(ErrorCode::SYS_ERR), "x");
    assert_eq!(n.error_code, "ucs-fe.redis.unknown_err");
    assert_eq!(ErrorResponse::raw("c", "m").error_code, "c");
}
