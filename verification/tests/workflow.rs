use now::config::{Command, NowConfig, Step};
use now::detect::Backend;
use now::error::NowError;
use now::image::ProjectFiles;
use now::workflow::{
    announce_backend, consults_config, init_command, pipeline_after, pipeline_start, plan_run,
    plan_step, running_message, shell_command, status_to_exit_code, PipelineAction, RunPlan,
    ShellPlan, StepAction,
};

fn words(ws: &[&str]) -> Vec<String> {
    ws.iter().map(|w| w.to_string()).collect()
}

fn no_files() -> ProjectFiles {
    ProjectFiles::probe(|_n: &str| false)
}

fn sample_config() -> (NowConfig, Command) {
    let mut config = NowConfig::new();
    let test = Command::Single(Step {
        image: Some("node:20-alpine".to_string()),
        run: "npm test".to_string(),
        host: false,
    });
    config.insert("test".to_string(), test.clone());
    (config, test)
}

#[test]
fn run_uses_configured_command_for_single_word() {
    let (config, test) = sample_config();
    assert!(consults_config(&None, &words(&["test"])));
    let plan = plan_run(None, words(&["test"]), Some(&config), &no_files());
    assert_eq!(plan, RunPlan::Configured(&test));
}

#[test]
fn run_falls_back_to_container() {
    let (config, _) = sample_config();
    let cargo = ProjectFiles::probe(|n: &str| n == "Cargo.toml");
    assert!(!consults_config(&Some("alpine".to_string()), &words(&["test"])));
    assert!(!consults_config(&None, &words(&["npm", "test"])));
    assert_eq!(
        plan_run(Some("alpine:3".to_string()), words(&["test"]), Some(&config), &cargo),
        RunPlan::Container { image: "alpine:3".to_string(), command: words(&["test"]) }
    );
    assert_eq!(
        plan_run(None, words(&["build"]), Some(&config), &cargo),
        RunPlan::Container { image: "rust:1-alpine".to_string(), command: words(&["build"]) }
    );
    assert_eq!(
        plan_run(None, words(&["test"]), None, &no_files()),
        RunPlan::Container { image: "alpine:latest".to_string(), command: words(&["test"]) }
    );
    assert_eq!(
        plan_run(None, words(&["npm", "test"]), Some(&config), &no_files()),
        RunPlan::Container { image: "alpine:latest".to_string(), command: words(&["npm", "test"]) }
    );
}

#[test]
fn announces_backend() {
    let backend = Backend::Docker { hint: "/var/run/docker.sock".to_string() };
    assert_eq!(
        announce_backend(&backend, "node:20-alpine"),
        "using Docker fallback via /var/run/docker.sock; image node:20-alpine"
    );
}

fn drive(statuses: &[u8]) -> (Vec<usize>, u8) {
    let mut ran = Vec::new();
    let mut action = pipeline_start(statuses.len());
    loop {
        match action {
            PipelineAction::RunStep(i) => {
                ran.push(i);
                action = pipeline_after(statuses.len(), i, statuses[i]);
            }
            PipelineAction::Finish(code) => return (ran, code),
        }
    }
}

#[test]
fn pipeline_stops_at_first_failure() {
    assert_eq!(drive(&[]), (vec![], 0));
    assert_eq!(drive(&[0, 0, 0]), (vec![0, 1, 2], 0));
    assert_eq!(drive(&[0, 2, 0]), (vec![0, 1], 2));
    assert_eq!(drive(&[7]), (vec![0], 7));
}

#[test]
fn steps_run_on_host_or_in_container() {
    let host = Step { image: None, run: "make".to_string(), host: true };
    assert_eq!(running_message(&host), "running make");
    assert_eq!(
        plan_step(host),
        Ok(StepAction::Host { command: words(&["sh", "-lc", "make"]) })
    );
    let boxed = Step { image: Some("alpine".to_string()), run: "ls -l".to_string(), host: false };
    assert_eq!(
        plan_step(boxed),
        Ok(StepAction::Container { image: "alpine".to_string(), command: words(&["sh", "-lc", "ls -l"]) })
    );
    let missing = Step { image: None, run: "ls".to_string(), host: false };
    let err = plan_step(missing).unwrap_err();
    assert_eq!(err, NowError::MissingStepImage);
    assert_eq!(err.message(), "container steps require an image");
}

#[test]
fn host_statuses_map_to_exit_codes() {
    assert_eq!(status_to_exit_code(Some(0)), 0);
    assert_eq!(status_to_exit_code(Some(42)), 42);
    assert_eq!(status_to_exit_code(Some(300)), 1);
    assert_eq!(status_to_exit_code(Some(-2)), 1);
    assert_eq!(status_to_exit_code(None), 1);
}

#[test]
fn shell_answers() {
    let unknown = shell_command("ruby@3").unwrap_err();
    assert_eq!(unknown.message(), "unknown toolchain selector: ruby@3");
    let known = shell_command("python@3.9").unwrap();
    assert_eq!(known, ShellPlan { image: "python:3.9-alpine".to_string() });
    let known = shell_command("go").unwrap();
    assert_eq!(known.image, "golang:latest-alpine");
}

#[test]
fn init_writes_template_once() {
    assert_eq!(
        init_command(false),
        Ok("commands:\n  test:\n    image: node:20-alpine\n    run: npm test\n".to_string())
    );
    let err = init_command(true).unwrap_err();
    assert_eq!(err.message(), ".now.yaml already exists");
}
