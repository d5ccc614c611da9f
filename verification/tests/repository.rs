use ucs_fe::model::{DropdownItem, TemplateField};
use ucs_fe::repository::{
    dropdown_configs, dropdown_table_of, listing_tail, minute_series, read_timeout_secs, OracleConnectionManager,
    PoolConfig,
};

fn item(v: &str, id: i64) -> DropdownItem {
    DropdownItem { dropdown_value: v.to_string(), dropdown_id: id }
}

fn field(id: &str, attr: &str, items: Vec<DropdownItem>) -> TemplateField {
    TemplateField { field_id: id.to_string(), field_attribute: attr.to_string(), dropdown_list: items }
}

#[test]
fn connection_settings() {
    let m = OracleConnectionManager::new("u", "p", "host/db");
    assert_eq!(m.user, "u");
    assert_eq!(m.password, "p");
    assert_eq!(m.connect_string, "host/db");
    let cfg = PoolConfig { max_size: 10, min_idle: 2, max_lifetime_secs: 600, max_idle_time_mins: 5, connection_timeout_secs: 3 };
    assert_eq!(cfg.idle_timeout_secs(), 300);
    assert_eq!(read_timeout_secs(0), 15);
    assert_eq!(read_timeout_secs(4), 4);
}

#[test]
fn listing_tails() {
    assert_eq!(listing_tail(None, None), "");
    assert_eq!(listing_tail(Some("CREATED_AT DESC"), None), " ORDER BY CREATED_AT DESC");
    assert_eq!(listing_tail(None, Some((3, 20))), " OFFSET 40 ROWS FETCH NEXT 20 ROWS ONLY");
    assert_eq!(listing_tail(Some("ID"), Some((0, 10))), " ORDER BY ID OFFSET 0 ROWS FETCH NEXT 10 ROWS ONLY");
    assert_eq!(listing_tail(None, Some((1, 10))), " OFFSET 0 ROWS FETCH NEXT 10 ROWS ONLY");
}

#[test]
fn minute_series_fills_gaps() {
    let rows = vec![(101i64, 4i64), (103, 2), (101, 5)];
    let s = minute_series(&rows, 100, 104);
    assert_eq!(s, vec![(100, 0), (101, 5), (102, 0), (103, 2), (104, 0)]);
    assert_eq!(minute_series(&rows, 5, 4), vec![]);
    assert_eq!(minute_series(&vec![], 7, 7), vec![(7, 0)]);
}

#[test]
fn dropdown_table_keeps_dropdown_fields() {
    let fields = vec![
        field("GENDER", "DD", vec![item("M", 1), item("F", 2)]),
        field("EMAIL", "I", vec![]),
        field("", "DD", vec![item("x", 9)]),
        field("JOB", "DD", vec![item("dev", 3)]),
        field("GENDER", "DD", vec![item("X", 4)]),
    ];
    let t = dropdown_table_of(&fields).unwrap();
    assert_eq!(t.entries.len(), 3);
    assert_eq!(t.entries[0].0, "GENDER");
    assert_eq!(t.entries[1].0, "JOB");
    let g = t.get("GENDER").unwrap();
    assert_eq!(g.len(), 1);
    assert_eq!(g[0].dropdown_value, "X");
    assert!(t.get("EMAIL").is_none());
    assert!(dropdown_table_of(&vec![field("A", "dd", vec![])]).is_none());
}

#[test]
fn dropdown_configs_skip_merchants_without_dropdowns() {
    let rows = vec![
        ("m1".to_string(), vec![field("GENDER", "DD", vec![item("M", 1)])]),
        ("m2".to_string(), vec![field("EMAIL", "I", vec![])]),
        ("m3".to_string(), vec![field("JOB", "DD", vec![])]),
    ];
    let c = dropdown_configs(&rows);
    assert_eq!(c.len(), 2);
    assert_eq!(c[0].0, "m1");
    assert_eq!(c[1].0, "m3");
    assert_eq!(c[1].1.entries[0].0, "JOB");
}
