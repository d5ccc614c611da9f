use ucs_fe::telemetry::{base_file_name, json_level, service_name, text_level, EventLevel, TextFormat};

#[test]
fn service_name_defaults() {
    assert_eq!(service_name(None), "ucs-fe");
    assert_eq!(service_name(Some("svc")), "svc");
}

#[test]
fn level_labels() {
    assert_eq!(text_level(&EventLevel::Warn), "WARN ");
    assert_eq!(text_level(&EventLevel::Info), "INFO ");
    assert_eq!(text_level(&EventLevel::Error), "ERROR");
    assert_eq!(json_level(&EventLevel::Warn), "WARN");
    assert_eq!(json_level(&EventLevel::Trace), "TRACE");
}

#[test]
fn file_names() {
    assert_eq!(base_file_name("src/service/cron.rs"), "cron.rs");
    assert_eq!(base_file_name("main.rs"), "main.rs");
    assert_eq!(base_file_name("dir/"), "");
}

#[test]
fn text_line_without_fields() {
    let f = TextFormat::new("ucs-fe");
    let line = f.format_line("2026-03-20 10:00:00.000", &EventLevel::Info, "src/foo.rs", 42, "started", &vec![]);
    assert_eq!(line, "[2026-03-20 10:00:00.000] [ucs-fe] [INFO ] [foo.rs:42] - started\n");
}

#[test]
fn text_line_with_fields() {
    let f = TextFormat::new("svc");
    let fields = vec![("job".to_string(), "\"x\"".to_string()), ("n".to_string(), "3".to_string())];
    let line = f.format_line("t", &EventLevel::Error, "a/b.rs", 7, "failed", &fields);
    assert_eq!(line, "[t] [svc] [ERROR] [b.rs:7] - failed | job=\"x\", n=3\n");
}
