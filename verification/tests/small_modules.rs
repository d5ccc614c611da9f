use ucs_fe::concurrency::{lock_timeout, lock_timeout_for, LockCounter};
use ucs_fe::error::Module;
use ucs_fe::health::{hello_message, HelloQuery};
use ucs_fe::observability::FlightRecorderConfig;
use ucs_fe::recover::{panic_log_line, panic_message, panic_reply, PanicPayload, RecoverLayer, PANIC_STATUS};

#[test]
fn panic_answers() {
    let r = panic_reply();
    assert!(!r.success);
    assert_eq!(r.error_code, "ucs-fe.non.internal_error");
    assert_eq!(r.message, "Internal server error");
    assert_eq!(PANIC_STATUS, 500);
    assert_eq!(panic_message(&PanicPayload::Other), "unknown panic");
    assert_eq!(panic_message(&PanicPayload::Message("boom".to_string())), "boom");
    assert_eq!(panic_log_line("GET", "/x", "boom"), "[PANIC] GET /x => boom");
    let s = RecoverLayer.layer(5u8);
    assert_eq!(s.inner, 5);
    assert_eq!(Module::NonBusiness.as_str(), "non");
}

#[test]
fn greeting() {
    assert_eq!(hello_message(&HelloQuery::from_param(None)), "Hello World");
    assert_eq!(hello_message(&HelloQuery::from_param(Some("Ann"))), "Hello Ann");
}

#[test]
fn flight_recorder_defaults() {
    let c = FlightRecorderConfig::default();
    assert_eq!(c.output_dir, "/tmp/traces");
    assert_eq!(c.min_age, std::time::Duration::from_secs(600));
}

#[test]
fn lock_wait() {
    assert_eq!(lock_timeout_for(false, 3), 10);
    assert_eq!(lock_timeout_for(true, 0), 15);
    assert_eq!(lock_timeout_for(true, 1), 15);
    assert_eq!(lock_timeout_for(true, 5), 11);
    assert_eq!(lock_timeout_for(true, 40), 1);
    assert_eq!(lock_timeout_for(true, i64::MIN), 15);
    let c = LockCounter::default();
    assert_eq!(lock_timeout(&c), 10);
    c.set_active(true);
    c.increment();
    c.increment();
    assert_eq!(lock_timeout(&c), 14);
    c.decrement();
    assert_eq!(c.load_count(), 1);
}

#[test]
fn module_names_differ() {
    let all = [
        Module::Oracle, Module::Redis, Module::Mongo, Module::SecurityQuestion, Module::Customer, Module::Profile,
        Module::NonBusiness, Module::Merchant, Module::Remember, Module::Password, Module::CustomerPermission,
        Module::Sort, Module::Mail, Module::DynamicField, Module::Relay, Module::Register, Module::Verification,
        Module::Database, Module::Wps, Module::Uss, Module::Mcs,
    ];
    let names: Vec<&str> = all.iter().map(|m| m.as_str()).collect();
    for i in 0..names.len() {
        for j in 0..names.len() {
            assert_eq!(i == j, names[i] == names[j]);
        }
    }
    assert_eq!(Module::Database.as_str(), "db");
    assert_eq!(Module::SecurityQuestion.as_str(), "security_question");
}
