use ucs_fe::logs::{any_field, flag, parse_level, parse_log_level, LogLevel};

#[test]
fn parse_level_known_values() {
    assert_eq!(parse_level("debug"), tracing::Level::DEBUG);
    assert_eq!(parse_level("DEBUG"), tracing::Level::DEBUG);
    assert_eq!(parse_level("info"), tracing::Level::INFO);
    assert_eq!(parse_level("warn"), tracing::Level::WARN);
    assert_eq!(parse_level("error"), tracing::Level::ERROR);
}

#[test]
fn parse_level_defaults_to_info() {
    assert_eq!(parse_level("unknown"), tracing::Level::INFO);
    assert_eq!(parse_level(""), tracing::Level::INFO);
    assert_eq!(parse_level("trace"), tracing::Level::INFO);
}

#[test]
fn parse_level_ignores_ascii_case() {
    assert_eq!(parse_level("WaRn"), tracing::Level::WARN);
    assert!(matches!(parse_log_level("ErRoR"), LogLevel::Error));
    assert!(matches!(parse_log_level(" warn"), LogLevel::Info));
}

#[test]
fn field_helpers() {
    assert_eq!(any_field("user_id", "alice"), "user_id=alice");
    assert_eq!(any_field("count", 42), "count=42");
    assert_eq!(flag("db-timeout"), "flag=db-timeout");
}

#[test]
fn field_helpers_other_values() {
    assert_eq!(any_field("ok", true), "ok=true");
    assert_eq!(any_field("n", -7i64), "n=-7");
    assert_eq!(any_field("u", 18446744073709551615u64), "u=18446744073709551615");
    assert_eq!(any_field("s", "x".to_string()), "s=x");
}
