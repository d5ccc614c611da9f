use ucs_fe::tasks::{command_plan, task_ci, task_docker_build, task_env, task_install, task_run_with_env, Invocation, XtaskCommand};

fn line(i: &Invocation) -> String {
    let mut s = i.program.clone();
    for a in &i.args {
        s.push(' ');
        s.push_str(a);
    }
    s
}

#[test]
fn default_plan_checks_format_then_builds() {
    let p = command_plan(None, "dev");
    let l: Vec<String> = p.iter().map(line).collect();
    assert_eq!(l, vec!["cargo fmt --all -- --check".to_string(), "cargo build --bin ucs-fe".to_string()]);
}

#[test]
fn aliases_share_plans() {
    let a: Vec<String> = command_plan(Some(XtaskCommand::Lint), "dev").iter().map(line).collect();
    let b: Vec<String> = command_plan(Some(XtaskCommand::Clippy), "dev").iter().map(line).collect();
    assert_eq!(a, b);
    assert!(a[0].starts_with("cargo clippy --all-targets --all-features -- -D warnings"));
}

#[test]
fn ci_plan() {
    let l: Vec<String> = task_ci().iter().map(line).collect();
    assert_eq!(l.len(), 3);
    assert_eq!(l[2], "cargo test --all-targets --locked");
}

#[test]
fn run_with_env_sets_env() {
    let p = task_run_with_env("prod", true);
    assert_eq!(line(&p[0]), "cargo run --release --bin ucs-fe");
    assert_eq!(p[0].envs, vec![("ENV".to_string(), "prod".to_string())]);
    let d = command_plan(Some(XtaskCommand::RunSit), "x");
    assert_eq!(line(&d[0]), "cargo run --bin ucs-fe");
    assert_eq!(d[0].envs[0].1, "sit");
}

#[test]
fn docker_and_install() {
    assert_eq!(line(&task_docker_build("sit")[0]), "docker build -t ucs-fe:sit .");
    let run = command_plan(Some(XtaskCommand::DockerRun), "dev");
    assert_eq!(line(&run[0]), "docker run --rm -p 8080:8080 --env-file .env ucs-fe:dev");
    let inst = task_install();
    assert_eq!(inst.len(), 10);
    assert_eq!(line(&inst[8]), "cargo install sqlx-cli --locked");
    assert_eq!(task_env(None), "dev");
    assert_eq!(task_env(Some("sit")), "sit");
}

#[test]
fn doc_check_denies_warnings() {
    let p = command_plan(Some(XtaskCommand::DocCheck), "dev");
    assert_eq!(p[0].envs, vec![("RUSTDOCFLAGS".to_string(), "-D warnings".to_string())]);
}
