use ucs_fe::clients::{
    append_capped, attempts_exhausted_message, check_response, customer_url, mcs_status_message, next_retry_step,
    personal_info_url, reset_generate_url, reset_password_status_url, service_base_path, service_base_url,
    too_large_message, uss_http_error, verify_player_info_url, wps_base_url, wps_http_error, AttemptOutcome,
    ResponseCheck, RetryStep, MAX_RESPONSE_SIZE,
};
use ucs_fe::uss::{is_http_error, is_profile_not_found, UssError};

#[test]
fn base_url_and_path_are_normalised() {
    assert_eq!(service_base_url("http://10.0.0.1:8080//"), "http://10.0.0.1:8080");
    assert_eq!(service_base_url("http://h"), "http://h");
    assert_eq!(service_base_path("/tcg-uss-ae/"), "tcg-uss-ae/");
    assert_eq!(service_base_path("tcg-uss-ae"), "tcg-uss-ae/");
    assert_eq!(service_base_path("//"), "");
    assert_eq!(service_base_path(""), "");
    assert_eq!(service_base_path("/a/b/"), "a/b/");
}

#[test]
fn wps_base_url_joins_host_and_path() {
    assert_eq!(wps_base_url("http://10.80.0.58:9007", "wps-core/"), "http://10.80.0.58:9007/wps-core");
    assert_eq!(wps_base_url("http://h/", "/p"), "http://h//p");
    assert_eq!(wps_base_url("http://h", ""), "http://h/");
}

#[test]
fn request_addresses() {
    let base = service_base_url("http://uss:80/");
    let path = service_base_path("/tcg-uss-ae/");
    assert_eq!(customer_url(&base, &path, "m1@bob", false), "http://uss:80/tcg-uss-ae/customer?customerName=m1@bob&force=false");
    assert_eq!(customer_url(&base, "", "x", true), "http://uss:80/customer?customerName=x&force=true");
    assert_eq!(personal_info_url(&base, &path, -12), "http://uss:80/tcg-uss-ae/customer/personal-info?customerId=-12");
    assert_eq!(reset_generate_url(&base, &path), "http://uss:80/tcg-uss-ae/password/reset-generate");
    assert_eq!(verify_player_info_url("http://mcs", "mcs/"), "http://mcs/mcs/player/verifyPlayerInfo");
    assert_eq!(reset_password_status_url("http://w/wps-core"), "http://w/wps-core/members/reset-password-status");
}

#[test]
fn retry_steps() {
    assert!(matches!(next_retry_step(1, AttemptOutcome::Answered), RetryStep::Deliver));
    assert!(matches!(next_retry_step(1, AttemptOutcome::Failed), RetryStep::RetryAfterDelay));
    assert!(matches!(next_retry_step(2, AttemptOutcome::TimedOut), RetryStep::RetryAfterDelay));
    assert!(matches!(next_retry_step(3, AttemptOutcome::Failed), RetryStep::GiveUp));
    assert!(matches!(next_retry_step(3, AttemptOutcome::Answered), RetryStep::Deliver));
    assert_eq!(attempts_exhausted_message("USS"), "all 3 USS attempts failed");
}

#[test]
fn response_checks() {
    assert!(matches!(check_response(200, None), ResponseCheck::ReadBody));
    assert!(matches!(check_response(200, Some(102400)), ResponseCheck::ReadBody));
    assert!(matches!(check_response(200, Some(102401)), ResponseCheck::TooLarge(102401)));
    assert!(matches!(check_response(404, Some(10)), ResponseCheck::BadStatus(404)));
    assert!(matches!(check_response(500, Some(999999)), ResponseCheck::BadStatus(500)));
    assert_eq!(too_large_message("USS", 200000), "USS response too large: content-length=200000, max=102400");
}

#[test]
fn error_bodies() {
    let e = uss_http_error(404, b"  {\"code\":\"uss-ae.profile.data_not_found\"}\n");
    assert_eq!(e.status, 404);
    assert_eq!(e.body, "{\"code\":\"uss-ae.profile.data_not_found\"}");
    let err = UssError::Http(e);
    assert!(is_http_error(&err));
    assert!(is_profile_not_found(&err));
    assert!(!is_profile_not_found(&UssError::Other("profile.data_not_found".to_string())));
    let w = wps_http_error(503);
    assert_eq!(w.body, "unexpected status code: 503");
    assert_eq!(w.status, 503);
    assert_eq!(mcs_status_message(502, b" bad gateway "), "status 502: bad gateway");
    assert_eq!(mcs_status_message(400, &[0xff, b'x']), "status 400: \u{fffd}x");
}

#[test]
fn capped_reading_keeps_a_prefix() {
    let mut buf: Vec<u8> = Vec::new();
    assert!(append_capped(&mut buf, b"hello", 8));
    assert_eq!(buf, b"hello");
    assert!(!append_capped(&mut buf, b"world", 8));
    assert_eq!(buf, b"hellowor");
    assert!(!append_capped(&mut buf, b"more", 8));
    assert_eq!(buf, b"hellowor");
}

#[test]
fn capped_reading_of_a_full_body() {
    let chunk = vec![7u8; 60000];
    let mut buf: Vec<u8> = Vec::new();
    let mut more = true;
    for _ in 0..3 {
        if !more {
            break;
        }
        more = append_capped(&mut buf, &chunk, MAX_RESPONSE_SIZE);
    }
    assert_eq!(buf.len(), MAX_RESPONSE_SIZE);
    assert!(!more);
}
