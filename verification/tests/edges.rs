use ucs_fe::config::{config_path, env_override_target, secret_name_for_env, ConfigOverride, JobConfig};
use ucs_fe::kafka::normalize_offset_reset;
use ucs_fe::middleware::{access_client_ip, map_status, needs_error_envelope, request_client_ip, skip_behavior_log, skip_trace, span_id_for_span, trace_id_for_span, trace_ids_from_headers, IpView};
use ucs_fe::upload::{accept_upload, find_bytes, parse_boundary, parse_multipart_file, secure_upload_extensions, upload_boundary, upload_extension, UploadError};
use ucs_fe::uss::NullString;

fn parse_ip(s: &str) -> Option<IpView> {
    let parts: Vec<&str> = s.split('.').collect();
    if parts.len() != 4 {
        return None;
    }
    let mut o = [0u8; 4];
    for (i, p) in parts.iter().enumerate() {
        o[i] = p.parse::<u8>().ok()?;
    }
    Some(IpView::V4(o))
}

#[test]
fn status_mapping() {
    assert_eq!(map_status(404), ("ucs-fe.non.not_found", "resource not found"));
    assert_eq!(map_status(418), ("ucs-fe.non.unknown_err", "unknown error"));
    assert!(needs_error_envelope(404, "text/plain"));
    assert!(!needs_error_envelope(404, "application/json; charset=utf-8"));
    assert!(!needs_error_envelope(302, "text/html"));
}

#[test]
fn skipped_paths() {
    assert!(skip_behavior_log("/tcg-ucs-fe/health"));
    assert!(!skip_behavior_log("/tcg-ucs-fe/questions"));
    assert!(skip_trace("/metrics"));
}

#[test]
fn trace_ids() {
    assert_eq!(trace_id_for_span(None, Some("abc"), None, None), "abc");
    assert_eq!(span_id_for_span(None), "unknown");
    let p = trace_ids_from_headers(None, None, Some("00-traceid-spanid-01"), None).unwrap();
    assert_eq!(p, ("traceid".to_string(), "spanid".to_string()));
    let u = trace_ids_from_headers(None, None, None, Some("t1:s1:0:1")).unwrap();
    assert_eq!(u, ("t1".to_string(), "s1".to_string()));
    assert!(trace_ids_from_headers(None, None, Some("bad"), None).is_none());
}

#[test]
fn client_addresses() {
    let f = parse_ip;
    assert_eq!(access_client_ip(Some("8.8.8.8, 10.0.0.1"), None, &f), "8.8.8.8");
    assert_eq!(access_client_ip(Some("10.0.0.1"), Some("1.1.1.1"), &f), "1.1.1.1");
    assert_eq!(access_client_ip(None, Some("192.168.0.9"), &f), "unknown");
    assert_eq!(request_client_ip(Some(" 9.9.9.9 , 127.0.0.1"), None, Some("5.5.5.5"), &f), "9.9.9.9");
}

#[test]
fn multipart_bodies() {
    assert_eq!(find_bytes(b"abcabc", b"ca"), Some(2));
    assert_eq!(find_bytes(b"abc", b"x"), None);
    assert_eq!(parse_boundary("multipart/form-data; boundary=XyZ"), Some("XyZ".to_string()));
    assert!(parse_boundary("text/plain").is_none());
    let body = b"--XyZ\r\nContent-Disposition: form-data; name=\"file\"; filename=\"a.png\"\r\n\r\nDATA\r\n--XyZ--\r\n";
    let part = parse_multipart_file(body, "XyZ").unwrap();
    assert_eq!(part.filename, "a.png");
    assert_eq!(part.data, b"DATA");
    assert!(matches!(upload_boundary(None), Err(UploadError::MissingBoundary)));
    assert_eq!(upload_extension("photo.JPG"), ".jpg");
    let allowed = secure_upload_extensions();
    let ok = accept_upload(body, "XyZ", Some(&allowed)).ok().unwrap();
    assert_eq!(ok.ext, ".png");
    let exe = b"--XyZ\r\nContent-Disposition: form-data; name=\"file\"; filename=\"a.exe\"\r\n\r\nMZ\r\n--XyZ--\r\n";
    assert!(matches!(accept_upload(exe, "XyZ", Some(&allowed)), Err(UploadError::TypeNotAllowed)));
    assert!(matches!(accept_upload(b"--XyZ--", "XyZ", None), Err(UploadError::FileRequired)));
}

#[test]
fn configuration_helpers() {
    assert!(matches!(env_override_target("APP__ORACLE__USER"), Some(ConfigOverride::OracleUser)));
    assert!(matches!(env_override_target("APP__log__level"), Some(ConfigOverride::LogLevel)));
    assert!(env_override_target("APP__oracle").is_none());
    assert!(env_override_target("HOME").is_none());
    assert!(secret_name_for_env("unknown-env").is_err());
    assert!(config_path("dev").contains("dev"));
    let j = JobConfig::default();
    assert!(!j.enabled && j.timeout == 60 && j.interval == 0);
    assert_eq!(normalize_offset_reset("newest"), "latest");
    assert_eq!(normalize_offset_reset("oldest"), "earliest");
    assert_eq!(normalize_offset_reset(""), "latest");
    assert_eq!(normalize_offset_reset("none"), "none");
}

#[test]
fn null_strings() {
    assert_eq!(NullString::from_json_str("null").as_str(), "");
    assert_eq!(NullString::from_json_str("abc").as_str(), "abc");
    assert_eq!(NullString::from_i64(-3).as_str(), "-3");
    assert_eq!(NullString::from_bool(true).as_str(), "true");
}
