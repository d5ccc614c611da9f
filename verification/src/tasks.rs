//! The developer tasks: which programs each task runs, with which
//! arguments and environment, in order.
use vstd::prelude::*;
use crate::text::{concat, owned};

verus! {

/// The binary the tasks build and run.
pub const APP: &'static str = "ucs-fe";

/// One program to run.
pub struct Invocation {
    pub program: String,
    pub args: Vec<String>,
    pub envs: Vec<(String, String)>,
}

/// A program run as the specifications see it.
#[verifier::ext_equal]
pub struct RunView {
    pub program: Seq<char>,
    pub args: Seq<Seq<char>>,
    pub envs: Seq<(Seq<char>, Seq<char>)>,
}

/// The run of `program` with `args` and extra environment `envs`.
pub open spec fn run_view(program: Seq<char>, args: Seq<Seq<char>>, envs: Seq<(Seq<char>, Seq<char>)>) -> RunView {
    RunView { program, args, envs }
}

/// What an invocation runs.
pub open spec fn invocation_view(i: Invocation) -> RunView {
    RunView {
        program: i.program@,
        args: i.args@.map_values(|a: String| a@),
        envs: i.envs@.map_values(|e: (String, String)| (e.0@, e.1@)),
    }
}

/// What a list of invocations runs, in order.
pub open spec fn plan_view(p: Seq<Invocation>) -> Seq<RunView> {
    p.map_values(|i: Invocation| invocation_view(i))
}

/// An invocation of `program` with `args` and extra environment `envs`.
pub fn invocation(program: &str, args: &[&str], envs: &[(&str, &str)]) -> (r: Invocation)
    ensures
        invocation_view(r) == run_view(program@, args@.map_values(|a: &str| a@), envs@.map_values(|e: (&str, &str)| (e.0@, e.1@))),
{
    let mut a: Vec<String> = Vec::new();
    let mut i: usize = 0;
    while i < args.len()
        invariant
            i <= args.len(),
            a@.len() == i,
            forall|k: int| 0 <= k < i ==> #[trigger] a@[k]@ == args@[k]@,
        decreases args.len() - i,
    {
        a.push(owned(args[i]));
        i = i + 1;
    }
    assert(a@.map_values(|x: String| x@) =~= args@.map_values(|x: &str| x@));
    let mut e: Vec<(String, String)> = Vec::new();
    let mut j: usize = 0;
    while j < envs.len()
        invariant
            j <= envs.len(),
            e@.len() == j,
            forall|k: int| 0 <= k < j ==> #[trigger] e@[k].0@ == envs@[k].0@ && e@[k].1@ == envs@[k].1@,
        decreases envs.len() - j,
    {
        let (k, v) = envs[j];
        e.push((owned(k), owned(v)));
        j = j + 1;
    }
    assert(e@.map_values(|x: (String, String)| (x.0@, x.1@)) =~= envs@.map_values(|x: (&str, &str)| (x.0@, x.1@)));
    Invocation { program: owned(program), args: a, envs: e }
}

/// `a` followed by `b`.
fn then(a: Vec<Invocation>, b: Vec<Invocation>) -> (r: Vec<Invocation>)
    ensures
        plan_view(r@) == plan_view(a@) + plan_view(b@),
{
    let mut r = a;
    let mut rest = b;
    r.append(&mut rest);
    assert(plan_view(r@) =~= plan_view(a@) + plan_view(b@));
    r
}

/// The plan of `task_build`.
pub open spec fn task_build_plan() -> Seq<RunView> {
    seq![run_view("cargo"@, seq!["build"@, "--bin"@, APP@], Seq::empty())]
}

/// The plan of `task_release`.
pub open spec fn task_release_plan() -> Seq<RunView> {
    seq![run_view("cargo"@, seq!["build"@, "--release"@, "--bin"@, APP@, "--locked"@], Seq::empty())]
}

/// The plan of `task_build_all`.
pub open spec fn task_build_all_plan() -> Seq<RunView> {
    seq![run_view("cargo"@, seq!["build"@, "--all-targets"@], Seq::empty())]
}

/// The plan of `task_release_all`.
pub open spec fn task_release_all_plan() -> Seq<RunView> {
    seq![run_view("cargo"@, seq!["build"@, "--release"@, "--all-targets"@, "--locked"@], Seq::empty())]
}

/// The plan of `task_run`.
pub open spec fn task_run_plan() -> Seq<RunView> {
    seq![run_view("cargo"@, seq!["run"@, "--bin"@, APP@], Seq::empty())]
}

/// The plan of `task_run_release`.
pub open spec fn task_run_release_plan() -> Seq<RunView> {
    seq![run_view("cargo"@, seq!["run"@, "--release"@, "--bin"@, APP@], Seq::empty())]
}

/// The plan of `task_check`.
pub open spec fn task_check_plan() -> Seq<RunView> {
    seq![run_view("cargo"@, seq!["check"@, "--all-targets"@], Seq::empty())]
}

/// The plan of `task_fmt`.
pub open spec fn task_fmt_plan() -> Seq<RunView> {
    seq![run_view("cargo"@, seq!["fmt"@, "--all"@], Seq::empty())]
}

/// The plan of `task_fmt_check`.
pub open spec fn task_fmt_check_plan() -> Seq<RunView> {
    seq![run_view("cargo"@, seq!["fmt"@, "--all"@, "--"@, "--check"@], Seq::empty())]
}

/// The plan of `task_clippy`.
pub open spec fn task_clippy_plan() -> Seq<RunView> {
    seq![run_view("cargo"@, seq!["clippy"@, "--all-targets"@, "--all-features"@, "--"@, "-D"@, "warnings"@, "-W"@, "clippy::correctness"@, "-W"@, "clippy::suspicious"@, "-W"@, "clippy::perf"@, "-W"@, "clippy::complexity"@, "-W"@, "clippy::style"@, "-W"@, "clippy::pedantic"@], Seq::empty())]
}

/// The plan of `task_clippy_fix`.
pub open spec fn task_clippy_fix_plan() -> Seq<RunView> {
    seq![run_view("cargo"@, seq!["clippy"@, "--all-targets"@, "--fix"@, "--allow-dirty"@, "--allow-staged"@, "--"@, "-W"@, "clippy::pedantic"@], Seq::empty())]
}

/// The plan of `task_test`.
pub open spec fn task_test_plan() -> Seq<RunView> {
    seq![run_view("cargo"@, seq!["test"@, "--all-targets"@, "--locked"@], Seq::empty())]
}

/// The plan of `task_testv`.
pub open spec fn task_testv_plan() -> Seq<RunView> {
    seq![run_view("cargo"@, seq!["test"@, "--all"@, "--"@, "--nocapture"@], Seq::empty())]
}

/// The plan of `task_test_release`.
pub open spec fn task_test_release_plan() -> Seq<RunView> {
    seq![run_view("cargo"@, seq!["test"@, "--release"@, "--all"@], Seq::empty())]
}

/// The plan of `task_nextest`.
pub open spec fn task_nextest_plan() -> Seq<RunView> {
    seq![run_view("cargo"@, seq!["nextest"@, "run"@], Seq::empty())]
}

/// The plan of `task_bench`.
pub open spec fn task_bench_plan() -> Seq<RunView> {
    seq![run_view("cargo"@, seq!["bench"@], Seq::empty())]
}

/// The plan of `task_cover`.
pub open spec fn task_cover_plan() -> Seq<RunView> {
    seq![run_view("cargo"@, seq!["tarpaulin"@, "--all-features"@, "--workspace"@, "--timeout"@, "120"@, "--out"@, "Html"@, "--output-dir"@, "target/coverage"@], Seq::empty())]
}

/// The plan of `task_doc`.
pub open spec fn task_doc_plan() -> Seq<RunView> {
    seq![run_view("cargo"@, seq!["doc"@, "--no-deps"@, "--open"@, "--document-private-items"@], Seq::empty())]
}

/// The plan of `task_doc_check`.
pub open spec fn task_doc_check_plan() -> Seq<RunView> {
    seq![run_view("cargo"@, seq!["doc"@, "--no-deps"@], seq![("RUSTDOCFLAGS"@, "-D warnings"@)])]
}

/// The plan of `task_audit`.
pub open spec fn task_audit_plan() -> Seq<RunView> {
    seq![run_view("cargo"@, seq!["audit"@], Seq::empty())]
}

/// The plan of `task_deny`.
pub open spec fn task_deny_plan() -> Seq<RunView> {
    seq![run_view("cargo"@, seq!["deny"@, "check"@], Seq::empty())]
}

/// The plan of `task_deny_init`.
pub open spec fn task_deny_init_plan() -> Seq<RunView> {
    seq![run_view("cargo"@, seq!["deny"@, "init"@], Seq::empty())]
}

/// The plan of `task_deny_advisories`.
pub open spec fn task_deny_advisories_plan() -> Seq<RunView> {
    seq![run_view("cargo"@, seq!["deny"@, "check"@, "advisories"@], Seq::empty())]
}

/// The plan of `task_deny_bans`.
pub open spec fn task_deny_bans_plan() -> Seq<RunView> {
    seq![run_view("cargo"@, seq!["deny"@, "check"@, "bans"@], Seq::empty())]
}

/// The plan of `task_deny_licenses`.
pub open spec fn task_deny_licenses_plan() -> Seq<RunView> {
    seq![run_view("cargo"@, seq!["deny"@, "check"@, "licenses"@], Seq::empty())]
}

/// The plan of `task_deny_sources`.
pub open spec fn task_deny_sources_plan() -> Seq<RunView> {
    seq![run_view("cargo"@, seq!["deny"@, "check"@, "sources"@], Seq::empty())]
}

/// The plan of `task_outdated`.
pub open spec fn task_outdated_plan() -> Seq<RunView> {
    seq![run_view("cargo"@, seq!["outdated"@, "-R"@], Seq::empty())]
}

/// The plan of `task_udeps`.
pub open spec fn task_udeps_plan() -> Seq<RunView> {
    seq![run_view("cargo"@, seq!["+nightly"@, "udeps"@, "--all-targets"@], Seq::empty())]
}

/// The plan of `task_update`.
pub open spec fn task_update_plan() -> Seq<RunView> {
    seq![run_view("cargo"@, seq!["update"@], Seq::empty())]
}

/// The plan of `task_upgrade`.
pub open spec fn task_upgrade_plan() -> Seq<RunView> {
    seq![run_view("cargo"@, seq!["upgrade"@, "--incompatible"@], Seq::empty()), run_view("cargo"@, seq!["update"@], Seq::empty())]
}

/// The plan of `task_update_toolchain`.
pub open spec fn task_update_toolchain_plan() -> Seq<RunView> {
    seq![run_view("rustup"@, seq!["update"@], Seq::empty()), run_view("cargo"@, seq!["update"@], Seq::empty())]
}

/// The plan of `task_migrate`.
pub open spec fn task_migrate_plan() -> Seq<RunView> {
    seq![run_view("sqlx"@, seq!["migrate"@, "run"@], Seq::empty())]
}

/// The plan of `task_migrate_revert`.
pub open spec fn task_migrate_revert_plan() -> Seq<RunView> {
    seq![run_view("sqlx"@, seq!["migrate"@, "revert"@], Seq::empty())]
}

/// The plan of `task_watch`.
pub open spec fn task_watch_plan() -> Seq<RunView> {
    seq![run_view("cargo"@, seq!["watch"@, "-x"@, "build"@], Seq::empty())]
}

/// The plan of `task_watch_run`.
pub open spec fn task_watch_run_plan() -> Seq<RunView> {
    seq![run_view("cargo"@, seq!["watch"@, "-x"@, "run --bin ucs-fe"@], Seq::empty())]
}

/// The plan of `task_watch_test`.
pub open spec fn task_watch_test_plan() -> Seq<RunView> {
    seq![run_view("cargo"@, seq!["watch"@, "-x"@, "test"@], Seq::empty())]
}

/// The plan of `task_watch_check`.
pub open spec fn task_watch_check_plan() -> Seq<RunView> {
    seq![run_view("cargo"@, seq!["watch"@, "-x"@, "check"@], Seq::empty())]
}

/// The plan of `task_clean`.
pub open spec fn task_clean_plan() -> Seq<RunView> {
    seq![run_view("cargo"@, seq!["clean"@], Seq::empty())]
}

/// The plan of `task_stats`.
pub open spec fn task_stats_plan() -> Seq<RunView> {
    seq![run_view("tokei"@, seq!["--sort"@, "code"@], Seq::empty())]
}

/// The plan of `task_stats_detail`.
pub open spec fn task_stats_detail_plan() -> Seq<RunView> {
    seq![run_view("tokei"@, seq!["--files"@, "--sort"@, "code"@], Seq::empty())]
}

/// The plan of `task_version`.
pub open spec fn task_version_plan() -> Seq<RunView> {
    seq![run_view("rustc"@, seq!["--version"@], Seq::empty()), run_view("cargo"@, seq!["--version"@], Seq::empty()), run_view("rustup"@, seq!["--version"@], Seq::empty())]
}

/// The plan of `task_optimize`.
pub open spec fn task_optimize_plan() -> Seq<RunView> {
    task_clippy_fix_plan() + task_fmt_plan() + task_clippy_plan()
}

/// The plan of `task_ci`.
pub open spec fn task_ci_plan() -> Seq<RunView> {
    task_fmt_check_plan() + task_clippy_plan() + task_test_plan()
}

/// The plan of `task_ci_security`.
pub open spec fn task_ci_security_plan() -> Seq<RunView> {
    task_audit_plan() + task_deny_plan()
}

/// The plan of `task_ci_full`.
pub open spec fn task_ci_full_plan() -> Seq<RunView> {
    task_fmt_check_plan() + task_clippy_plan() + task_test_plan() + task_audit_plan() + task_deny_plan() + task_doc_check_plan()
}

/// Compile the debug binary.
pub fn task_build() -> (r: Vec<Invocation>)
    ensures
        plan_view(r@) == task_build_plan(),
{
    let r = vec![invocation("cargo", &["build", "--bin", APP], &[])];
    assert(plan_view(r@) =~~= task_build_plan());
    r
}

/// Compile the release binary, with the lock file as it is.
pub fn task_release() -> (r: Vec<Invocation>)
    ensures
        plan_view(r@) == task_release_plan(),
{
    let r = vec![invocation("cargo", &["build", "--release", "--bin", APP, "--locked"], &[])];
    assert(plan_view(r@) =~~= task_release_plan());
    r
}

/// Compile all targets in debug mode.
pub fn task_build_all() -> (r: Vec<Invocation>)
    ensures
        plan_view(r@) == task_build_all_plan(),
{
    let r = vec![invocation("cargo", &["build", "--all-targets"], &[])];
    assert(plan_view(r@) =~~= task_build_all_plan());
    r
}

/// Compile all targets in release mode.
pub fn task_release_all() -> (r: Vec<Invocation>)
    ensures
        plan_view(r@) == task_release_all_plan(),
{
    let r = vec![invocation("cargo", &["build", "--release", "--all-targets", "--locked"], &[])];
    assert(plan_view(r@) =~~= task_release_all_plan());
    r
}

/// Run the service in debug mode.
pub fn task_run() -> (r: Vec<Invocation>)
    ensures
        plan_view(r@) == task_run_plan(),
{
    let r = vec![invocation("cargo", &["run", "--bin", APP], &[])];
    assert(plan_view(r@) =~~= task_run_plan());
    r
}

/// Run the service in release mode.
pub fn task_run_release() -> (r: Vec<Invocation>)
    ensures
        plan_view(r@) == task_run_release_plan(),
{
    let r = vec![invocation("cargo", &["run", "--release", "--bin", APP], &[])];
    assert(plan_view(r@) =~~= task_run_release_plan());
    r
}

/// `cargo check` of all targets.
pub fn task_check() -> (r: Vec<Invocation>)
    ensures
        plan_view(r@) == task_check_plan(),
{
    let r = vec![invocation("cargo", &["check", "--all-targets"], &[])];
    assert(plan_view(r@) =~~= task_check_plan());
    r
}

/// Format all sources.
pub fn task_fmt() -> (r: Vec<Invocation>)
    ensures
        plan_view(r@) == task_fmt_plan(),
{
    let r = vec![invocation("cargo", &["fmt", "--all"], &[])];
    assert(plan_view(r@) =~~= task_fmt_plan());
    r
}

/// Check that all sources are formatted.
pub fn task_fmt_check() -> (r: Vec<Invocation>)
    ensures
        plan_view(r@) == task_fmt_check_plan(),
{
    let r = vec![invocation("cargo", &["fmt", "--all", "--", "--check"], &[])];
    assert(plan_view(r@) =~~= task_fmt_check_plan());
    r
}

/// Clippy, warnings denied, with the listed lint groups.
pub fn task_clippy() -> (r: Vec<Invocation>)
    ensures
        plan_view(r@) == task_clippy_plan(),
{
    let r = vec![invocation("cargo", &["clippy", "--all-targets", "--all-features", "--", "-D", "warnings", "-W", "clippy::correctness", "-W", "clippy::suspicious", "-W", "clippy::perf", "-W", "clippy::complexity", "-W", "clippy::style", "-W", "clippy::pedantic"], &[])];
    assert(plan_view(r@) =~~= task_clippy_plan());
    r
}

/// Clippy with its fixes applied.
pub fn task_clippy_fix() -> (r: Vec<Invocation>)
    ensures
        plan_view(r@) == task_clippy_fix_plan(),
{
    let r = vec![invocation("cargo", &["clippy", "--all-targets", "--fix", "--allow-dirty", "--allow-staged", "--", "-W", "clippy::pedantic"], &[])];
    assert(plan_view(r@) =~~= task_clippy_fix_plan());
    r
}

/// All tests of all targets.
pub fn task_test() -> (r: Vec<Invocation>)
    ensures
        plan_view(r@) == task_test_plan(),
{
    let r = vec![invocation("cargo", &["test", "--all-targets", "--locked"], &[])];
    assert(plan_view(r@) =~~= task_test_plan());
    r
}

/// All tests with their output shown.
pub fn task_testv() -> (r: Vec<Invocation>)
    ensures
        plan_view(r@) == task_testv_plan(),
{
    let r = vec![invocation("cargo", &["test", "--all", "--", "--nocapture"], &[])];
    assert(plan_view(r@) =~~= task_testv_plan());
    r
}

/// All tests in release mode.
pub fn task_test_release() -> (r: Vec<Invocation>)
    ensures
        plan_view(r@) == task_test_release_plan(),
{
    let r = vec![invocation("cargo", &["test", "--release", "--all"], &[])];
    assert(plan_view(r@) =~~= task_test_release_plan());
    r
}

/// The tests under nextest.
pub fn task_nextest() -> (r: Vec<Invocation>)
    ensures
        plan_view(r@) == task_nextest_plan(),
{
    let r = vec![invocation("cargo", &["nextest", "run"], &[])];
    assert(plan_view(r@) =~~= task_nextest_plan());
    r
}

/// The benchmarks.
pub fn task_bench() -> (r: Vec<Invocation>)
    ensures
        plan_view(r@) == task_bench_plan(),
{
    let r = vec![invocation("cargo", &["bench"], &[])];
    assert(plan_view(r@) =~~= task_bench_plan());
    r
}

/// An HTML coverage report under `target/coverage`.
pub fn task_cover() -> (r: Vec<Invocation>)
    ensures
        plan_view(r@) == task_cover_plan(),
{
    let r = vec![invocation("cargo", &["tarpaulin", "--all-features", "--workspace", "--timeout", "120", "--out", "Html", "--output-dir", "target/coverage"], &[])];
    assert(plan_view(r@) =~~= task_cover_plan());
    r
}

/// The documentation with private items, opened.
pub fn task_doc() -> (r: Vec<Invocation>)
    ensures
        plan_view(r@) == task_doc_plan(),
{
    let r = vec![invocation("cargo", &["doc", "--no-deps", "--open", "--document-private-items"], &[])];
    assert(plan_view(r@) =~~= task_doc_plan());
    r
}

/// The documentation, warnings denied.
pub fn task_doc_check() -> (r: Vec<Invocation>)
    ensures
        plan_view(r@) == task_doc_check_plan(),
{
    let r = vec![invocation("cargo", &["doc", "--no-deps"], &[("RUSTDOCFLAGS", "-D warnings")])];
    assert(plan_view(r@) =~~= task_doc_check_plan());
    r
}

/// Known vulnerabilities of the dependencies.
pub fn task_audit() -> (r: Vec<Invocation>)
    ensures
        plan_view(r@) == task_audit_plan(),
{
    let r = vec![invocation("cargo", &["audit"], &[])];
    assert(plan_view(r@) =~~= task_audit_plan());
    r
}

/// All dependency policy checks.
pub fn task_deny() -> (r: Vec<Invocation>)
    ensures
        plan_view(r@) == task_deny_plan(),
{
    let r = vec![invocation("cargo", &["deny", "check"], &[])];
    assert(plan_view(r@) =~~= task_deny_plan());
    r
}

/// A dependency policy template.
pub fn task_deny_init() -> (r: Vec<Invocation>)
    ensures
        plan_view(r@) == task_deny_init_plan(),
{
    let r = vec![invocation("cargo", &["deny", "init"], &[])];
    assert(plan_view(r@) =~~= task_deny_init_plan());
    r
}

/// The advisories check.
pub fn task_deny_advisories() -> (r: Vec<Invocation>)
    ensures
        plan_view(r@) == task_deny_advisories_plan(),
{
    let r = vec![invocation("cargo", &["deny", "check", "advisories"], &[])];
    assert(plan_view(r@) =~~= task_deny_advisories_plan());
    r
}

/// The banned-crates check.
pub fn task_deny_bans() -> (r: Vec<Invocation>)
    ensures
        plan_view(r@) == task_deny_bans_plan(),
{
    let r = vec![invocation("cargo", &["deny", "check", "bans"], &[])];
    assert(plan_view(r@) =~~= task_deny_bans_plan());
    r
}

/// The licenses check.
pub fn task_deny_licenses() -> (r: Vec<Invocation>)
    ensures
        plan_view(r@) == task_deny_licenses_plan(),
{
    let r = vec![invocation("cargo", &["deny", "check", "licenses"], &[])];
    assert(plan_view(r@) =~~= task_deny_licenses_plan());
    r
}

/// The crate-sources check.
pub fn task_deny_sources() -> (r: Vec<Invocation>)
    ensures
        plan_view(r@) == task_deny_sources_plan(),
{
    let r = vec![invocation("cargo", &["deny", "check", "sources"], &[])];
    assert(plan_view(r@) =~~= task_deny_sources_plan());
    r
}

/// The outdated dependencies.
pub fn task_outdated() -> (r: Vec<Invocation>)
    ensures
        plan_view(r@) == task_outdated_plan(),
{
    let r = vec![invocation("cargo", &["outdated", "-R"], &[])];
    assert(plan_view(r@) =~~= task_outdated_plan());
    r
}

/// The unused dependencies (nightly).
pub fn task_udeps() -> (r: Vec<Invocation>)
    ensures
        plan_view(r@) == task_udeps_plan(),
{
    let r = vec![invocation("cargo", &["+nightly", "udeps", "--all-targets"], &[])];
    assert(plan_view(r@) =~~= task_udeps_plan());
    r
}

/// An update of the lock file.
pub fn task_update() -> (r: Vec<Invocation>)
    ensures
        plan_view(r@) == task_update_plan(),
{
    let r = vec![invocation("cargo", &["update"], &[])];
    assert(plan_view(r@) =~~= task_update_plan());
    r
}

/// An upgrade of the version requirements, then of the lock file.
pub fn task_upgrade() -> (r: Vec<Invocation>)
    ensures
        plan_view(r@) == task_upgrade_plan(),
{
    let r = vec![invocation("cargo", &["upgrade", "--incompatible"], &[]), invocation("cargo", &["update"], &[])];
    assert(plan_view(r@) =~~= task_upgrade_plan());
    r
}

/// An update of the toolchain, then of the lock file.
pub fn task_update_toolchain() -> (r: Vec<Invocation>)
    ensures
        plan_view(r@) == task_update_toolchain_plan(),
{
    let r = vec![invocation("rustup", &["update"], &[]), invocation("cargo", &["update"], &[])];
    assert(plan_view(r@) =~~= task_update_toolchain_plan());
    r
}

/// The pending database migrations.
pub fn task_migrate() -> (r: Vec<Invocation>)
    ensures
        plan_view(r@) == task_migrate_plan(),
{
    let r = vec![invocation("sqlx", &["migrate", "run"], &[])];
    assert(plan_view(r@) =~~= task_migrate_plan());
    r
}

/// A revert of the last database migration.
pub fn task_migrate_revert() -> (r: Vec<Invocation>)
    ensures
        plan_view(r@) == task_migrate_revert_plan(),
{
    let r = vec![invocation("sqlx", &["migrate", "revert"], &[])];
    assert(plan_view(r@) =~~= task_migrate_revert_plan());
    r
}

/// A rebuild on every change.
pub fn task_watch() -> (r: Vec<Invocation>)
    ensures
        plan_view(r@) == task_watch_plan(),
{
    let r = vec![invocation("cargo", &["watch", "-x", "build"], &[])];
    assert(plan_view(r@) =~~= task_watch_plan());
    r
}

/// A rebuild and restart on every change.
pub fn task_watch_run() -> (r: Vec<Invocation>)
    ensures
        plan_view(r@) == task_watch_run_plan(),
{
    let r = vec![invocation("cargo", &["watch", "-x", "run --bin ucs-fe"], &[])];
    assert(plan_view(r@) =~~= task_watch_run_plan());
    r
}

/// The tests on every change.
pub fn task_watch_test() -> (r: Vec<Invocation>)
    ensures
        plan_view(r@) == task_watch_test_plan(),
{
    let r = vec![invocation("cargo", &["watch", "-x", "test"], &[])];
    assert(plan_view(r@) =~~= task_watch_test_plan());
    r
}

/// `cargo check` on every change.
pub fn task_watch_check() -> (r: Vec<Invocation>)
    ensures
        plan_view(r@) == task_watch_check_plan(),
{
    let r = vec![invocation("cargo", &["watch", "-x", "check"], &[])];
    assert(plan_view(r@) =~~= task_watch_check_plan());
    r
}

/// Removal of the build directory.
pub fn task_clean() -> (r: Vec<Invocation>)
    ensures
        plan_view(r@) == task_clean_plan(),
{
    let r = vec![invocation("cargo", &["clean"], &[])];
    assert(plan_view(r@) =~~= task_clean_plan());
    r
}

/// Lines of code.
pub fn task_stats() -> (r: Vec<Invocation>)
    ensures
        plan_view(r@) == task_stats_plan(),
{
    let r = vec![invocation("tokei", &["--sort", "code"], &[])];
    assert(plan_view(r@) =~~= task_stats_plan());
    r
}

/// Lines of code per file.
pub fn task_stats_detail() -> (r: Vec<Invocation>)
    ensures
        plan_view(r@) == task_stats_detail_plan(),
{
    let r = vec![invocation("tokei", &["--files", "--sort", "code"], &[])];
    assert(plan_view(r@) =~~= task_stats_detail_plan());
    r
}

/// The toolchain versions.
pub fn task_version() -> (r: Vec<Invocation>)
    ensures
        plan_view(r@) == task_version_plan(),
{
    let r = vec![invocation("rustc", &["--version"], &[]), invocation("cargo", &["--version"], &[]), invocation("rustup", &["--version"], &[])];
    assert(plan_view(r@) =~~= task_version_plan());
    r
}

/// Clippy fixes, formatting, then clippy again.
pub fn task_optimize() -> (r: Vec<Invocation>)
    ensures
        plan_view(r@) == task_optimize_plan(),
{
    then(then(task_clippy_fix(), task_fmt()), task_clippy())
}

/// The basic CI gate: format check, clippy, tests.
pub fn task_ci() -> (r: Vec<Invocation>)
    ensures
        plan_view(r@) == task_ci_plan(),
{
    then(then(task_fmt_check(), task_clippy()), task_test())
}

/// The security gate: audit and dependency policy.
pub fn task_ci_security() -> (r: Vec<Invocation>)
    ensures
        plan_view(r@) == task_ci_security_plan(),
{
    then(task_audit(), task_deny())
}

/// The full CI gate: format check, clippy, tests, audit, dependency policy, documentation.
pub fn task_ci_full() -> (r: Vec<Invocation>)
    ensures
        plan_view(r@) == task_ci_full_plan(),
{
    then(then(then(then(then(task_fmt_check(), task_clippy()), task_test()), task_audit()), task_deny()), task_doc_check())
}

/// The plan of `cargo_install`.
pub open spec fn cargo_install_plan(krate: Seq<char>) -> Seq<RunView> {
    seq![run_view("cargo"@, seq!["install"@, krate, "--locked"@], Seq::empty())]
}

/// Installation of one cargo tool.
pub fn cargo_install(krate: &str) -> (r: Vec<Invocation>)
    ensures
        plan_view(r@) == cargo_install_plan(krate@),
{
    let r = vec![invocation("cargo", &["install", krate, "--locked"], &[])];
    assert(plan_view(r@) =~~= cargo_install_plan(krate@));
    r
}

/// The tools `task_install` installs, in order.
pub open spec fn install_tools() -> Seq<Seq<char>> {
    seq!["cargo-watch"@, "cargo-edit"@, "cargo-outdated"@, "cargo-audit"@, "cargo-deny"@, "cargo-tarpaulin"@, "cargo-nextest"@, "cargo-udeps"@, "sqlx-cli"@, "tokei"@]
}

/// The plan of `task_install`: each tool installed in turn.
pub open spec fn task_install_plan() -> Seq<RunView> {
    install_tools().map_values(|t: Seq<char>| run_view("cargo"@, seq!["install"@, t, "--locked"@], Seq::empty()))
}

/// Installation of all recommended cargo tools.
pub fn task_install() -> (r: Vec<Invocation>)
    ensures
        plan_view(r@) == task_install_plan(),
{
    let tools: [&str; 10] = ["cargo-watch", "cargo-edit", "cargo-outdated", "cargo-audit", "cargo-deny", "cargo-tarpaulin", "cargo-nextest", "cargo-udeps", "sqlx-cli", "tokei"];
    let mut r: Vec<Invocation> = Vec::new();
    let mut i: usize = 0;
    assert(tools@.map_values(|t: &str| t@) =~= install_tools());
    while i < 10
        invariant
            i <= 10,
            tools@.map_values(|t: &str| t@) == install_tools(),
            plan_view(r@) == task_install_plan().take(i as int),
        decreases 10 - i,
    {
        let one = cargo_install(tools[i]);
        r = then(r, one);
        proof {
            assert(task_install_plan().take((i + 1) as int) =~= task_install_plan().take(i as int) + cargo_install_plan(tools@[i as int]@));
        }
        i = i + 1;
    }
    assert(task_install_plan().take(10) =~= task_install_plan());
    r
}

/// The plan of `task_run_with_env`.
pub open spec fn task_run_with_env_plan(env_val: Seq<char>, release: bool) -> Seq<RunView> {
    let args = if release { seq!["run"@, "--release"@, "--bin"@, APP@] } else { seq!["run"@, "--bin"@, APP@] };
    seq![run_view("cargo"@, args, seq![("ENV"@, env_val)])]
}

/// Run the service with `ENV` set, in release mode or not.
pub fn task_run_with_env(env_val: &str, release: bool) -> (r: Vec<Invocation>)
    ensures
        plan_view(r@) == task_run_with_env_plan(env_val@, release),
{
    let r = if release {
        vec![invocation("cargo", &["run", "--release", "--bin", APP], &[("ENV", env_val)])]
    } else {
        vec![invocation("cargo", &["run", "--bin", APP], &[("ENV", env_val)])]
    };
    assert(plan_view(r@) =~~= task_run_with_env_plan(env_val@, release));
    r
}

/// The image tag of an environment: `ucs-fe:{env}`.
pub open spec fn image_tag(env_val: Seq<char>) -> Seq<char> {
    APP@ + ":"@ + env_val
}

/// The plan of `task_docker_build`.
pub open spec fn task_docker_build_plan(env_val: Seq<char>) -> Seq<RunView> {
    seq![run_view("docker"@, seq!["build"@, "-t"@, image_tag(env_val), "."@], Seq::empty())]
}

/// Build the image tagged with the environment.
pub fn task_docker_build(env_val: &str) -> (r: Vec<Invocation>)
    ensures
        plan_view(r@) == task_docker_build_plan(env_val@),
{
    let mut tag = concat(APP, ":");
    tag.append(env_val);
    let r = vec![invocation("docker", &["build", "-t", tag.as_str(), "."], &[])];
    assert(plan_view(r@) =~~= task_docker_build_plan(env_val@));
    r
}

/// The plan of `task_docker_run`.
pub open spec fn task_docker_run_plan(env_val: Seq<char>) -> Seq<RunView> {
    seq![run_view("docker"@, seq!["run"@, "--rm"@, "-p"@, "8080:8080"@, "--env-file"@, ".env"@, image_tag(env_val)], Seq::empty())]
}

/// Run the image of the environment on port 8080.
pub fn task_docker_run(env_val: &str) -> (r: Vec<Invocation>)
    ensures
        plan_view(r@) == task_docker_run_plan(env_val@),
{
    let mut tag = concat(APP, ":");
    tag.append(env_val);
    let r = vec![invocation("docker", &["run", "--rm", "-p", "8080:8080", "--env-file", ".env", tag.as_str()], &[])];
    assert(plan_view(r@) =~~= task_docker_run_plan(env_val@));
    r
}

/// A task the runner is asked for.
pub enum XtaskCommand {
    Build,
    Debug,
    Release,
    BuildAll,
    ReleaseAll,
    Run,
    RunRelease,
    RunDev,
    RunSit,
    RunProd,
    Check,
    Fmt,
    FmtCheck,
    Clippy,
    Lint,
    ClippyFix,
    Optimize,
    Test,
    Testv,
    TestRelease,
    Nextest,
    Bench,
    Cover,
    Doc,
    DocCheck,
    Audit,
    Deny,
    DenyInit,
    DenyAdvisories,
    DenyBans,
    DenyLicenses,
    DenySources,
    Outdated,
    Udeps,
    Update,
    Upgrade,
    UpdateToolchain,
    Migrate,
    MigrateRevert,
    Watch,
    WatchRun,
    WatchTest,
    WatchCheck,
    Clean,
    DistClean,
    Ci,
    CiSecurity,
    Security,
    CiFull,
    DockerBuild,
    DockerRun,
    Stats,
    StatsDetail,
    Status,
    Install,
    Version,
}

/// The runs a command makes: with no command, the format check then the
/// debug build. `dist-clean` runs `cargo clean` here; removing the lock file
/// is left to the runner. `env_val` is the `ENV` of the shell (`dev` when
/// unset), used by the image tasks.
pub open spec fn command_plan_of(cmd: Option<XtaskCommand>, env_val: Seq<char>) -> Seq<RunView> {
    match cmd {
        None => task_fmt_check_plan() + task_build_plan(),
        Some(c) => match c {
            XtaskCommand::Build => task_build_plan(),
            XtaskCommand::Debug => task_build_plan(),
            XtaskCommand::Release => task_release_plan(),
            XtaskCommand::BuildAll => task_build_all_plan(),
            XtaskCommand::ReleaseAll => task_release_all_plan(),
            XtaskCommand::Run => task_run_plan(),
            XtaskCommand::RunRelease => task_run_release_plan(),
            XtaskCommand::RunDev => task_run_with_env_plan("dev"@, false),
            XtaskCommand::RunSit => task_run_with_env_plan("sit"@, false),
            XtaskCommand::RunProd => task_run_with_env_plan("prod"@, true),
            XtaskCommand::Check => task_check_plan(),
            XtaskCommand::Fmt => task_fmt_plan(),
            XtaskCommand::FmtCheck => task_fmt_check_plan(),
            XtaskCommand::Clippy => task_clippy_plan(),
            XtaskCommand::Lint => task_clippy_plan(),
            XtaskCommand::ClippyFix => task_clippy_fix_plan(),
            XtaskCommand::Optimize => task_optimize_plan(),
            XtaskCommand::Test => task_test_plan(),
            XtaskCommand::Testv => task_testv_plan(),
            XtaskCommand::TestRelease => task_test_release_plan(),
            XtaskCommand::Nextest => task_nextest_plan(),
            XtaskCommand::Bench => task_bench_plan(),
            XtaskCommand::Cover => task_cover_plan(),
            XtaskCommand::Doc => task_doc_plan(),
            XtaskCommand::DocCheck => task_doc_check_plan(),
            XtaskCommand::Audit => task_audit_plan(),
            XtaskCommand::Deny => task_deny_plan(),
            XtaskCommand::DenyInit => task_deny_init_plan(),
            XtaskCommand::DenyAdvisories => task_deny_advisories_plan(),
            XtaskCommand::DenyBans => task_deny_bans_plan(),
            XtaskCommand::DenyLicenses => task_deny_licenses_plan(),
            XtaskCommand::DenySources => task_deny_sources_plan(),
            XtaskCommand::Outdated => task_outdated_plan(),
            XtaskCommand::Udeps => task_udeps_plan(),
            XtaskCommand::Update => task_update_plan(),
            XtaskCommand::Upgrade => task_upgrade_plan(),
            XtaskCommand::UpdateToolchain => task_update_toolchain_plan(),
            XtaskCommand::Migrate => task_migrate_plan(),
            XtaskCommand::MigrateRevert => task_migrate_revert_plan(),
            XtaskCommand::Watch => task_watch_plan(),
            XtaskCommand::WatchRun => task_watch_run_plan(),
            XtaskCommand::WatchTest => task_watch_test_plan(),
            XtaskCommand::WatchCheck => task_watch_check_plan(),
            XtaskCommand::Clean => task_clean_plan(),
            XtaskCommand::DistClean => task_clean_plan(),
            XtaskCommand::Ci => task_ci_plan(),
            XtaskCommand::CiSecurity => task_ci_security_plan(),
            XtaskCommand::Security => task_ci_security_plan(),
            XtaskCommand::CiFull => task_ci_full_plan(),
            XtaskCommand::DockerBuild => task_docker_build_plan(env_val),
            XtaskCommand::DockerRun => task_docker_run_plan(env_val),
            XtaskCommand::Stats => task_stats_plan(),
            XtaskCommand::StatsDetail => task_stats_detail_plan(),
            XtaskCommand::Status => task_stats_plan(),
            XtaskCommand::Install => task_install_plan(),
            XtaskCommand::Version => task_version_plan(),
        },
    }
}

/// The runs a command makes.
pub fn command_plan(cmd: Option<XtaskCommand>, env_val: &str) -> (r: Vec<Invocation>)
    ensures
        plan_view(r@) == command_plan_of(cmd, env_val@),
{
    match cmd {
        None => then(task_fmt_check(), task_build()),
        Some(c) => match c {
            XtaskCommand::Build => task_build(),
            XtaskCommand::Debug => task_build(),
            XtaskCommand::Release => task_release(),
            XtaskCommand::BuildAll => task_build_all(),
            XtaskCommand::ReleaseAll => task_release_all(),
            XtaskCommand::Run => task_run(),
            XtaskCommand::RunRelease => task_run_release(),
            XtaskCommand::RunDev => task_run_with_env("dev", false),
            XtaskCommand::RunSit => task_run_with_env("sit", false),
            XtaskCommand::RunProd => task_run_with_env("prod", true),
            XtaskCommand::Check => task_check(),
            XtaskCommand::Fmt => task_fmt(),
            XtaskCommand::FmtCheck => task_fmt_check(),
            XtaskCommand::Clippy => task_clippy(),
            XtaskCommand::Lint => task_clippy(),
            XtaskCommand::ClippyFix => task_clippy_fix(),
            XtaskCommand::Optimize => task_optimize(),
            XtaskCommand::Test => task_test(),
            XtaskCommand::Testv => task_testv(),
            XtaskCommand::TestRelease => task_test_release(),
            XtaskCommand::Nextest => task_nextest(),
            XtaskCommand::Bench => task_bench(),
            XtaskCommand::Cover => task_cover(),
            XtaskCommand::Doc => task_doc(),
            XtaskCommand::DocCheck => task_doc_check(),
            XtaskCommand::Audit => task_audit(),
            XtaskCommand::Deny => task_deny(),
            XtaskCommand::DenyInit => task_deny_init(),
            XtaskCommand::DenyAdvisories => task_deny_advisories(),
            XtaskCommand::DenyBans => task_deny_bans(),
            XtaskCommand::DenyLicenses => task_deny_licenses(),
            XtaskCommand::DenySources => task_deny_sources(),
            XtaskCommand::Outdated => task_outdated(),
            XtaskCommand::Udeps => task_udeps(),
            XtaskCommand::Update => task_update(),
            XtaskCommand::Upgrade => task_upgrade(),
            XtaskCommand::UpdateToolchain => task_update_toolchain(),
            XtaskCommand::Migrate => task_migrate(),
            XtaskCommand::MigrateRevert => task_migrate_revert(),
            XtaskCommand::Watch => task_watch(),
            XtaskCommand::WatchRun => task_watch_run(),
            XtaskCommand::WatchTest => task_watch_test(),
            XtaskCommand::WatchCheck => task_watch_check(),
            XtaskCommand::Clean => task_clean(),
            XtaskCommand::DistClean => task_clean(),
            XtaskCommand::Ci => task_ci(),
            XtaskCommand::CiSecurity => task_ci_security(),
            XtaskCommand::Security => task_ci_security(),
            XtaskCommand::CiFull => task_ci_full(),
            XtaskCommand::DockerBuild => task_docker_build(env_val),
            XtaskCommand::DockerRun => task_docker_run(env_val),
            XtaskCommand::Stats => task_stats(),
            XtaskCommand::StatsDetail => task_stats_detail(),
            XtaskCommand::Status => task_stats(),
            XtaskCommand::Install => task_install(),
            XtaskCommand::Version => task_version(),
        },
    }
}

/// The `ENV` the tasks use: the shell's, else `dev`.
pub fn task_env(shell_env: Option<&str>) -> (r: String)
    ensures
        r@ == (match shell_env {
            Some(e) => e@,
            None => "dev"@,
        }),
{
    match shell_env {
        Some(e) => owned(e),
        None => owned("dev"),
    }
}

} // verus!
