use ucs_fe::field_cache::{get_all_field_configs, get_field_config, set_field_config, FieldConfigCache};
use ucs_fe::model::DropdownItem;
use ucs_fe::questions::DropdownTable;
use ucs_fe::uss_mapping::{get_all_uss_mapping_configs, get_uss_mapping_config_sync, set_uss_mapping_config, FieldIdUssMapping, UssMappingCache};
use ucs_fe::verification::validation_record;

fn table(field: &str, value: &str, id: i64) -> DropdownTable {
    DropdownTable {
        entries: vec![(field.to_string(), vec![DropdownItem { dropdown_value: value.to_string(), dropdown_id: id }])],
    }
}

#[test]
fn field_configs_read_back() {
    let mut cache = FieldConfigCache::new();
    assert!(get_field_config(&cache, "M1").is_none());
    assert!(get_all_field_configs(&cache).is_empty());
    set_field_config(&mut cache, "M1".to_string(), table("BANK", "Alpha", 1));
    set_field_config(&mut cache, "M2".to_string(), table("CITY", "Beta", 2));
    set_field_config(&mut cache, "M1".to_string(), table("BANK", "Gamma", 3));
    let m1 = get_field_config(&cache, "M1").expect("M1 is stored");
    assert_eq!(m1.entries[0].1[0].dropdown_value, "Gamma");
    assert_eq!(m1.entries[0].1[0].dropdown_id, 3);
    assert!(get_field_config(&cache, "M3").is_none());
    let mut all: Vec<(String, String)> = get_all_field_configs(&cache)
        .into_iter()
        .map(|(k, t)| (k, t.entries[0].1[0].dropdown_value.clone()))
        .collect();
    all.sort();
    assert_eq!(all, vec![("M1".to_string(), "Gamma".to_string()), ("M2".to_string(), "Beta".to_string())]);
}

#[test]
fn uss_mappings_read_back() {
    let mut cache = UssMappingCache::new();
    assert!(get_all_uss_mapping_configs(&cache).is_empty());
    set_uss_mapping_config(&mut cache, "BANK", "Alpha", 7);
    set_uss_mapping_config(&mut cache, "CITY", "Rome", -2);
    let mut all = get_all_uss_mapping_configs(&cache);
    all.sort();
    assert_eq!(all, vec![("BANK:Alpha".to_string(), "7".to_string()), ("CITY:Rome".to_string(), "-2".to_string())]);
}

#[test]
fn record_of_a_submission() {
    let passed = validation_record(42, "M1", "ann", "10.0.0.1", 60, 75, "{}".to_string(), 1_700_000_000);
    assert_eq!(passed.id, None);
    assert_eq!(passed.customer_id, 42);
    assert_eq!(passed.customer_name, "M1@ann");
    assert_eq!(passed.success, 1);
    assert_eq!(passed.merchant_code, "M1");
    assert_eq!(passed.ip, "10.0.0.1");
    assert_eq!(passed.passing_score, 60);
    assert_eq!(passed.score, 75);
    assert_eq!(passed.qas, "{}");
    assert_eq!(passed.created_at, 1_700_000_000);
    let at_limit = validation_record(1, "M", "b", "ip", 60, 60, String::new(), 0);
    assert_eq!(at_limit.success, 1);
    let failed = validation_record(1, "M", "b", "ip", 60, 59, String::new(), 0);
    assert_eq!(failed.success, 0);
}

#[test]
fn plain_answers() {
    let ok = ucs_fe::error::BaseResponse::ok();
    assert!(ok.success);
    assert!(ok.message.is_none());
    let with = ucs_fe::error::BaseResponse::ok_with_message("saved");
    assert!(with.success);
    assert_eq!(with.message.as_deref(), Some("saved"));
    let flat = ucs_fe::error::SuccessResponse::new(7u8);
    assert!(flat.success);
    assert_eq!(flat.value, 7);
}

#[test]
fn lock_wait_tail() {
    assert_eq!(ucs_fe::repository::lock_wait_clause(None), "");
    assert_eq!(ucs_fe::repository::lock_wait_clause(Some(12)), " FOR UPDATE WAIT 12");
    assert_eq!(ucs_fe::repository::lock_wait_clause(Some(0)), " FOR UPDATE WAIT 0");
}

fn sample_question(id: &str, valid: bool) -> ucs_fe::model::Question {
    ucs_fe::model::Question {
        field_id: id.to_string(),
        field_name: format!("{id} name"),
        field_attribute: "I".to_string(),
        field_type: "Social".to_string(),
        valid,
        score: 10,
        accuracy: String::new(),
    }
}

#[test]
fn only_valid_questions_stay() {
    let all = ucs_fe::model::QuestionMap {
        entries: vec![
            ("B".to_string(), sample_question("B", true)),
            ("A".to_string(), sample_question("A", false)),
            ("C".to_string(), sample_question("C", true)),
        ],
    };
    let valid = all.valid_questions();
    let keys: Vec<&str> = valid.entries.iter().map(|(k, _)| k.as_str()).collect();
    assert_eq!(keys, vec!["B", "C"]);
    assert!(valid.entries.iter().all(|(_, q)| q.valid));
    assert_eq!(valid.entries[1].1.field_name, "C name");
    let copy = ucs_fe::model::copy_question(&all.entries[1].1);
    assert_eq!(copy.field_id, "A");
    assert!(!copy.valid);
    assert_eq!(copy.score, 10);
}

#[test]
fn reload_drops_merchants_no_longer_loaded() {
    let mut cache = FieldConfigCache::new();
    set_field_config(&mut cache, "OLD".to_string(), table("BANK", "Stale", 9));
    let configs = vec![
        ("M1".to_string(), std::sync::Arc::new(table("BANK", "First", 1))),
        ("M2".to_string(), std::sync::Arc::new(table("CITY", "Only", 2))),
        ("M1".to_string(), std::sync::Arc::new(table("BANK", "Second", 3))),
    ];
    cache.refresh(configs);
    assert!(get_field_config(&cache, "OLD").is_none());
    assert_eq!(get_field_config(&cache, "M1").unwrap().entries[0].1[0].dropdown_value, "Second");
    assert_eq!(get_field_config(&cache, "M2").unwrap().entries[0].1[0].dropdown_id, 2);
    assert_eq!(get_all_field_configs(&cache).len(), 2);
}

#[test]
fn mapping_reload_drops_keys_no_longer_loaded() {
    let mut cache = UssMappingCache::new();
    set_uss_mapping_config(&mut cache, "OLD", "Gone", 5);
    let row = |field_name: &str, uss_id: i32| FieldIdUssMapping {
        id: 1,
        mcs_id: 2,
        field_id: "BANK".to_string(),
        field_name: field_name.to_string(),
        uss_id,
    };
    cache.refresh(&vec![row("Alpha", 1), row("Beta", 2), row("Alpha", 3)]);
    assert_eq!(cache.get("OLD", "Gone"), None);
    assert_eq!(cache.get("BANK", "Alpha"), Some("3".to_string()));
    let mut all = get_all_uss_mapping_configs(&cache);
    all.sort();
    assert_eq!(all, vec![("BANK:Alpha".to_string(), "3".to_string()), ("BANK:Beta".to_string(), "2".to_string())]);
}

#[test]
fn stored_mapping_survives_other_stores() {
    let mut cache = UssMappingCache::new();
    set_uss_mapping_config(&mut cache, "GENDER", "Male", 1);
    set_uss_mapping_config(&mut cache, "GENDER", "Female", 2);
    set_uss_mapping_config(&mut cache, "CITY", "Male", 3);
    set_uss_mapping_config(&mut cache, "GENDERX", "Male", 4);
    assert_eq!(get_uss_mapping_config_sync(&cache, "GENDER", "Male"), Some("1".to_string()));
    assert_eq!(get_uss_mapping_config_sync(&cache, "GENDER", "Male"), Some("1".to_string()));
    assert_eq!(get_uss_mapping_config_sync(&cache, "GENDER", "Other"), None);
}
