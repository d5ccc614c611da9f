//! Which configured background jobs run, and what each of them does.
use vstd::prelude::*;
use crate::config::JobConfig;
use crate::text::{concat, str_eq};

verus! {

/// A job that the service knows how to run.
pub enum CronJob {
    /// Reload every merchant's dropdown fields.
    TemplateFieldLoad,
    /// Reload the field-id to USS-id mapping.
    FieldIdUssIdMappingLoad,
}

/// The job a configured name stands for.
pub open spec fn job_named(name: Seq<char>) -> Option<CronJob> {
    if name == "template_field_load"@ {
        Some(CronJob::TemplateFieldLoad)
    } else if name == "fieldid_ussid_mapping_load"@ {
        Some(CronJob::FieldIdUssIdMappingLoad)
    } else {
        None
    }
}

/// The job a configured name stands for; for an unknown name, the error
/// `Unknown job: {name}`.
pub fn cron_job(name: &str) -> (r: Result<CronJob, String>)
    ensures
        match job_named(name@) {
            Some(j) => r == Ok::<CronJob, String>(j),
            None => r matches Err(m) && m@ == "Unknown job: "@ + name@,
        },
{
    if str_eq(name, "template_field_load") {
        Ok(CronJob::TemplateFieldLoad)
    } else if str_eq(name, "fieldid_ussid_mapping_load") {
        Ok(CronJob::FieldIdUssIdMappingLoad)
    } else {
        Err(concat("Unknown job: ", name))
    }
}

/// Whether a configured job is started: it is enabled and has an interval.
pub open spec fn job_runs(cfg: JobConfig) -> bool {
    cfg.enabled && cfg.interval > 0
}

/// A job to start: its name, interval and timeout in seconds.
pub struct ScheduledJob {
    pub name: String,
    pub interval_secs: u64,
    pub timeout_secs: u64,
}

/// The configured jobs that are started, in order.
pub open spec fn started_jobs(jobs: Seq<(String, JobConfig)>) -> Seq<(String, JobConfig)>
    decreases jobs.len(),
{
    if jobs.len() == 0 {
        Seq::empty()
    } else if job_runs(jobs.last().1) {
        started_jobs(jobs.drop_last()).push(jobs.last())
    } else {
        started_jobs(jobs.drop_last())
    }
}

/// Each entry of `s` is the name, interval and timeout of the job at the
/// same place in `j`.
pub open spec fn schedule_matches(s: Seq<ScheduledJob>, j: Seq<(String, JobConfig)>) -> bool {
    &&& s.len() == j.len()
    &&& forall|k: int| 0 <= k < s.len() ==> #[trigger] s[k].name@ == j[k].0@
        && s[k].interval_secs == j[k].1.interval && s[k].timeout_secs == j[k].1.timeout
}

/// The jobs to start: the enabled ones with a non-zero interval; a disabled
/// job or one without interval is skipped.
pub fn jobs_to_start(jobs: &Vec<(String, JobConfig)>) -> (r: Vec<ScheduledJob>)
    ensures
        schedule_matches(r@, started_jobs(jobs@)),
{
    let mut r: Vec<ScheduledJob> = Vec::new();
    let mut i: usize = 0;
    while i < jobs.len()
        invariant
            i <= jobs.len(),
            schedule_matches(r@, started_jobs(jobs@.take(i as int))),
        decreases jobs.len() - i,
    {
        proof {
            let now = jobs@.take((i + 1) as int);
            assert(now.drop_last() =~= jobs@.take(i as int));
            assert(now.last() == jobs@[i as int]);
        }
        let cfg = &jobs[i].1;
        if cfg.enabled && cfg.interval > 0 {
            r.push(ScheduledJob { name: jobs[i].0.clone(), interval_secs: cfg.interval, timeout_secs: cfg.timeout });
        }
        i = i + 1;
    }
    assert(jobs@.take(jobs.len() as int) =~= jobs@);
    r
}

/// What a tick of a started job does.
pub enum TickAction {
    /// Run the job now.
    Run,
    /// The previous run has not ended: skip this tick.
    Skip,
}

/// A job runs once at a time: a tick that comes while it runs is skipped.
pub fn on_tick(running: bool) -> (r: TickAction)
    ensures
        running <==> r is Skip,
{
    if running {
        TickAction::Skip
    } else {
        TickAction::Run
    }
}

} // verus!
