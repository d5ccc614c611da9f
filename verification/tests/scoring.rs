use ucs_fe::mcs::{VerifyFinanceHistoryResp, VerifyFinanceHistoryResult, VerifyPlayerFinanceInfoResult, VerifyPlayerHistoryResult};
use ucs_fe::model::{MerchantRuleConfig, QaTable, Question, QuestionMap, QA};
use ucs_fe::scoring::{
    accurate_judgment_score, calculate_score_for_financial_history, is_blocked_field, is_financial_history,
    match_date_with_accuracy, match_with_accuracy, parse_accuracy_duration, profile_accuracies_ready, AccuracyError,
};
use ucs_fe::types::{VerifyDataItem, VerifyItem};
use ucs_fe::uss::{NullInt32, NullString, ScoringProfile};
use ucs_fe::uss_mapping::{FieldIdUssMapping, UssMappingCache};

fn ns(s: &str) -> NullString {
    NullString { val: s.to_string(), valid: !s.is_empty() }
}

fn ni(v: i32) -> NullInt32 {
    NullInt32 { val: v, valid: true }
}

fn profile() -> ScoringProfile {
    ScoringProfile {
        email: ns("Bob@Example.com"),
        nickname: ns("bobby"),
        qq_no: ns(""),
        wechat: ns(""),
        line_id: ns(""),
        face_book_id: ns(""),
        whats_app_id: ns(""),
        zalo: ns(""),
        telegram: ns(""),
        viber: ns(""),
        twitter: ns(""),
        mobile_no: ns("5550100"),
        address: ns(""),
        payee_name: ns(""),
        id_number: ns(""),
        zip_code: ns(""),
        apple_id: ns(""),
        marital_status: ni(-1),
        gender: ni(1),
        occupation: ni(0),
        source_of_income: ni(0),
        id_type: ni(0),
        birthday: "1990-05-20".to_string(),
        last_login_time: String::new(),
        reg_date: String::new(),
        place_of_birth: ns(""),
        region: ns(""),
        permanent_address: ns(""),
        nationality: ns(""),
        us_state: ni(0),
        google: ns(""),
        kakao: ns(""),
    }
}

fn question(id: &str, score: i32, accuracy: &str) -> Question {
    Question {
        field_id: id.to_string(),
        field_name: id.to_string(),
        field_attribute: "I".to_string(),
        field_type: "Social".to_string(),
        valid: true,
        score,
        accuracy: accuracy.to_string(),
    }
}

fn rule(empty_score: i32) -> MerchantRuleConfig {
    MerchantRuleConfig {
        id: 1,
        merchant_code: "m1".to_string(),
        binding_type: "EMAIL".to_string(),
        passing_score: 60,
        empty_score,
        lock_hour: 0,
        ip_retry_limit: 5,
        account_retry_limit: 5,
        questions_json: None,
        field_translations: None,
    }
}

fn item(id: &str, value: &str, bind: bool) -> VerifyDataItem {
    VerifyDataItem { item: VerifyItem { field_id: id.to_string(), field_value: value.to_string() }, bind }
}

fn find<'a>(t: &'a QaTable, id: &str) -> &'a QA {
    t.entries.iter().find(|q| q.field_id == id).unwrap()
}

#[test]
fn field_classes() {
    assert!(is_financial_history("BANK_ACCOUNT"));
    assert!(is_financial_history("LAST_WITHDRAWAL_TIME"));
    assert!(!is_financial_history("EMAIL"));
    assert!(is_blocked_field("LAST_DEPOSIT_AMOUNT"));
    assert!(!is_blocked_field("BANK_ACCOUNT"));
}

#[test]
fn accuracy_durations() {
    assert_eq!(parse_accuracy_duration("3d").ok(), Some(3 * 86400));
    assert_eq!(parse_accuracy_duration(" 12H ").ok(), Some(12 * 3600));
    assert_eq!(parse_accuracy_duration("30m").ok(), Some(1800));
    assert!(matches!(parse_accuracy_duration("d"), Err(AccuracyError::TooShort)));
    assert!(matches!(parse_accuracy_duration("xd"), Err(AccuracyError::BadNumber)));
    assert!(matches!(parse_accuracy_duration("3w"), Err(AccuracyError::UnknownUnit)));
}

#[test]
fn date_windows() {
    assert_eq!(match_date_with_accuracy("2024-01-10", "2024-01-12", "3d").ok(), Some(true));
    assert_eq!(match_date_with_accuracy("2024-01-10", "2024-01-14", "3d").ok(), Some(false));
    assert_eq!(match_date_with_accuracy("2024-01-10", "2024-01-07", "3d").ok(), Some(true));
    assert_eq!(match_date_with_accuracy("2024-01-10", "2024-01-10", "12h").ok(), Some(true));
    assert!(matches!(match_date_with_accuracy("10/01/2024", "2024-01-10", "3d"), Err(AccuracyError::BadDate)));
}

#[test]
fn accuracy_dispatch() {
    let amounts = |s: &str, e: &str, _a: &str| s == e;
    assert!(match_with_accuracy("100", "100", "5%", &amounts));
    assert!(!match_with_accuracy("100", "101", "5%", &amounts));
    assert!(match_with_accuracy("2024-02-01", "2024-02-02", "1d", &amounts));
    assert!(!match_with_accuracy("garbage", "2024-02-02", "1d", &amounts));
}

#[test]
fn profile_answers_are_scored() {
    let p = profile();
    let questions = QuestionMap {
        entries: vec![
            ("EMAIL".to_string(), question("EMAIL", 30, "exact")),
            ("NICKNAME".to_string(), question("NICKNAME", 20, "")),
            ("DATE_OF_BIRTH".to_string(), question("DATE_OF_BIRTH", 25, "2d")),
            ("QQ".to_string(), question("QQ", 10, "")),
            ("MARITAL_STATUS".to_string(), question("MARITAL_STATUS", 10, "")),
            ("MOBILE_NUMBER".to_string(), question("MOBILE_NUMBER", 15, "")),
        ],
    };
    let items = vec![
        item("EMAIL", "bob@example.COM", true),
        item("NICKNAME", "rob", true),
        item("DATE_OF_BIRTH", "1990-05-21", true),
        item("QQ", "", false),
        item("MARITAL_STATUS", "", false),
        item("MOBILE_NUMBER", "", true),
        item("BANK_ACCOUNT", "123", true),
        item("UNKNOWN", "x", true),
    ];
    let mut submitted: Vec<String> = Vec::new();
    let mut qa = QaTable::new();
    let cache = UssMappingCache::new();
    let amounts = |_s: &str, _e: &str, _a: &str| false;
    accurate_judgment_score(&mut submitted, &items, &p, &rule(7), &mut qa, &questions, &cache, &amounts);
    assert_eq!(submitted.len(), 8);
    assert_eq!(qa.len(), 6);
    let e = find(&qa, "EMAIL");
    assert!(e.correct && e.score == 30 && e.total_score == 30);
    let n = find(&qa, "NICKNAME");
    assert!(!n.correct && n.score == 0);
    let d = find(&qa, "DATE_OF_BIRTH");
    assert!(d.correct && d.score == 25);
    let q = find(&qa, "QQ");
    assert!(q.correct && q.score == 7);
    let m = find(&qa, "MARITAL_STATUS");
    assert!(m.correct && m.score == 7);
    let mo = find(&qa, "MOBILE_NUMBER");
    assert!(!mo.correct && mo.score == 0);
    assert_eq!(qa.total_score(), 30 + 25 + 7 + 7);
}

#[test]
fn mapped_answers_use_the_uss_id() {
    let p = profile();
    let questions = QuestionMap { entries: vec![("GENDER".to_string(), question("GENDER", 10, ""))] };
    let mut cache = UssMappingCache::new();
    cache.refresh(&vec![FieldIdUssMapping { id: 1, mcs_id: 2, field_id: "GENDER".to_string(), field_name: "Male".to_string(), uss_id: 1 }]);
    assert_eq!(cache.get("GENDER", "Male"), Some("1".to_string()));
    let mut submitted: Vec<String> = Vec::new();
    let mut qa = QaTable::new();
    let amounts = |_s: &str, _e: &str, _a: &str| false;
    accurate_judgment_score(&mut submitted, &vec![item("GENDER", "Male", true)], &p, &rule(0), &mut qa, &questions, &cache, &amounts);
    assert!(find(&qa, "GENDER").correct);
}

#[test]
fn financial_verdicts_are_scored() {
    let resp = VerifyFinanceHistoryResp {
        success: true,
        value: VerifyFinanceHistoryResult {
            verify_player_finance_info: VerifyPlayerFinanceInfoResult {
                bc_number: 3,
                bc_holder_name: 2,
                bc_bank_code: 0,
                bc_sub_branch: 0,
                bc_city: 0,
                bc_province: 0,
                vw_address: 1,
                vw_holder_name: 3,
                vw_bank_code: 0,
                ew_account: 3,
                ew_holder_name: 0,
                ew_bank_code: 0,
            },
            verify_player_history_info: VerifyPlayerHistoryResult {
                last_deposit_amount: 3,
                last_deposit_method: 0,
                last_deposit_time: 0,
                last_withdraw_amount: 0,
                last_withdraw_method: 0,
                last_withdraw_time: 0,
            },
        },
    };
    let questions = QuestionMap {
        entries: vec![
            ("BANK_ACCOUNT".to_string(), question("BANK_ACCOUNT", 40, "")),
            ("CARD_HOLDER_NAME".to_string(), question("CARD_HOLDER_NAME", 10, "")),
            ("VIRTUAL_WALLET_ADDRESS".to_string(), question("VIRTUAL_WALLET_ADDRESS", 10, "")),
            ("E_WALLET_ACCOUNT".to_string(), question("E_WALLET_ACCOUNT", 10, "")),
            ("LAST_DEPOSIT_AMOUNT".to_string(), question("LAST_DEPOSIT_AMOUNT", 5, "")),
        ],
    };
    let submitted = vec!["BANK_ACCOUNT".to_string(), "CARD_HOLDER_NAME".to_string(), "VIRTUAL_WALLET_ADDRESS".to_string(), "LAST_DEPOSIT_AMOUNT".to_string()];
    let mut qa = QaTable::new();
    calculate_score_for_financial_history(&submitted, &resp, &rule(4), &mut qa, &questions);
    assert_eq!(qa.len(), 4);
    assert_eq!(find(&qa, "BANK_ACCOUNT").score, 40);
    assert!(find(&qa, "CARD_HOLDER_NAME").correct);
    assert_eq!(find(&qa, "CARD_HOLDER_NAME").score, 4);
    assert!(!find(&qa, "VIRTUAL_WALLET_ADDRESS").correct);
    assert_eq!(find(&qa, "LAST_DEPOSIT_AMOUNT").score, 5);
    assert!(qa.entries.iter().all(|q| q.field_id != "E_WALLET_ACCOUNT"));
}

#[test]
fn qa_table_keeps_one_answer_per_field() {
    let mut t = QaTable::new();
    t.insert(QA { field_id: "A".to_string(), field_type: "x".to_string(), correct: true, score: 5, total_score: 5 });
    t.insert(QA { field_id: "B".to_string(), field_type: "x".to_string(), correct: true, score: 3, total_score: 3 });
    t.insert(QA { field_id: "A".to_string(), field_type: "x".to_string(), correct: false, score: 0, total_score: 5 });
    assert_eq!(t.len(), 2);
    assert_eq!(t.total_score(), 3);
    assert_eq!(t.entries[0].field_id, "A");
    assert!(!t.entries[0].correct);
}

#[test]
fn unreadable_date_accuracy_is_caught_before_scoring() {
    let p = profile();
    let cache = UssMappingCache::new();
    let bad = QuestionMap { entries: vec![("DATE_OF_BIRTH".to_string(), question("DATE_OF_BIRTH", 25, "2é"))] };
    assert!(!profile_accuracies_ready(&vec![item("DATE_OF_BIRTH", "1990-05-21", true)], &p, &bad, &cache));
    assert!(profile_accuracies_ready(&vec![item("DATE_OF_BIRTH", "1990-05-20", true)], &p, &bad, &cache));
    assert!(profile_accuracies_ready(&vec![item("DATE_OF_BIRTH", "1990-05-21", false)], &p, &bad, &cache));
    assert!(profile_accuracies_ready(&vec![item("DATE_OF_BIRTH", "", true)], &p, &bad, &cache));
    let amount = QuestionMap { entries: vec![("DATE_OF_BIRTH".to_string(), question("DATE_OF_BIRTH", 25, "2%"))] };
    assert!(profile_accuracies_ready(&vec![item("DATE_OF_BIRTH", "1990-05-21", true)], &p, &amount, &cache));
    let good = QuestionMap { entries: vec![("DATE_OF_BIRTH".to_string(), question("DATE_OF_BIRTH", 25, "2d"))] };
    assert!(profile_accuracies_ready(&vec![item("DATE_OF_BIRTH", "1990-05-21", true)], &p, &good, &cache));
}
