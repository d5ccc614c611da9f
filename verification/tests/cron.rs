use ucs_fe::config::JobConfig;
use ucs_fe::cron::{cron_job, jobs_to_start, on_tick, CronJob, TickAction};

fn job(interval: u64, timeout: u64, enabled: bool) -> JobConfig {
    JobConfig { cron: String::new(), interval, timeout, concurrency: 1, enabled }
}

#[test]
fn job_names() {
    assert!(matches!(cron_job("template_field_load"), Ok(CronJob::TemplateFieldLoad)));
    assert!(matches!(cron_job("fieldid_ussid_mapping_load"), Ok(CronJob::FieldIdUssIdMappingLoad)));
    match cron_job("other") {
        Err(m) => assert_eq!(m, "Unknown job: other"),
        Ok(_) => panic!("unknown job accepted"),
    }
}

#[test]
fn only_enabled_jobs_with_interval_start() {
    let jobs = vec![
        ("a".to_string(), job(60, 30, true)),
        ("b".to_string(), job(60, 30, false)),
        ("c".to_string(), job(0, 30, true)),
        ("d".to_string(), job(5, 9, true)),
    ];
    let s = jobs_to_start(&jobs);
    assert_eq!(s.len(), 2);
    assert_eq!(s[0].name, "a");
    assert_eq!(s[0].interval_secs, 60);
    assert_eq!(s[1].name, "d");
    assert_eq!(s[1].timeout_secs, 9);
}

#[test]
fn a_running_job_skips_ticks() {
    assert!(matches!(on_tick(true), TickAction::Skip));
    assert!(matches!(on_tick(false), TickAction::Run));
}
