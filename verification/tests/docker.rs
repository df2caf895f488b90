use now::docker::{
    code_to_exit, container_config, next_stage, removal_warning, report_run,
    shell_container_config, RunStage, container_name, exit_from_wait, log_destination, log_options,
    preparing_message, pull_step, ready_message, remove_options, split_image, LogSource,
    OutputStream, RunRequest,
};
use now::error::NowError;

fn pair(a: &str, b: &str) -> (String, String) {
    (a.to_string(), b.to_string())
}

#[test]
fn splits_tagged_images() {
    assert_eq!(split_image("alpine:latest"), pair("alpine", "latest"));
    assert_eq!(split_image("node:20-alpine"), pair("node", "20-alpine"));
    assert_eq!(
        split_image("ghcr.io/example/tool:v1"),
        pair("ghcr.io/example/tool", "v1")
    );
}

#[test]
fn keeps_registry_ports_without_tags() {
    assert_eq!(
        split_image("localhost:5000/example/tool"),
        pair("localhost:5000/example/tool", "latest")
    );
}

#[test]
fn splits_untagged_and_ported_images() {
    assert_eq!(split_image("alpine"), pair("alpine", "latest"));
    assert_eq!(split_image(""), pair("", "latest"));
    assert_eq!(
        split_image("localhost:5000/tool:1.2"),
        pair("localhost:5000/tool", "1.2")
    );
    assert_eq!(split_image("a:b:c"), pair("a:b", "c"));
    assert_eq!(split_image("name:"), pair("name", ""));
    assert_eq!(split_image("ünï:tag"), pair("ünï", "tag"));
}

#[test]
fn split_rejoins_to_the_reference() {
    for image in ["alpine:3.19", "ghcr.io/x/y:v2", "localhost:5000/a/b:c"] {
        let (name, tag) = split_image(image);
        assert_eq!(format!("{}:{}", name, tag), image);
        assert!(!tag.contains(':') && !tag.contains('/'));
    }
}

#[test]
fn exit_codes_fit_a_byte_or_fail() {
    assert_eq!(code_to_exit(0), 0);
    assert_eq!(code_to_exit(3), 3);
    assert_eq!(code_to_exit(255), 255);
    assert_eq!(code_to_exit(256), 1);
    assert_eq!(code_to_exit(-1), 1);
    assert_eq!(code_to_exit(i64::MAX), 1);
    assert_eq!(exit_from_wait(Some(137)), Ok(137));
    assert_eq!(exit_from_wait(Some(-5)), Ok(1));
    assert_eq!(exit_from_wait(None), Err(NowError::NoExitStatus));
    assert_eq!(
        NowError::NoExitStatus.message(),
        "container exited before Docker returned a status"
    );
}

#[test]
fn container_is_configured_for_the_workspace() {
    let request = RunRequest {
        image: "node:20-alpine".to_string(),
        command: vec!["npm".to_string(), "test".to_string()],
        workdir: ".".to_string(),
    };
    let config = container_config(&request, "/home/me/project");
    assert_eq!(config.image, "node:20-alpine");
    assert_eq!(config.cmd, vec!["npm".to_string(), "test".to_string()]);
    assert_eq!(config.working_dir, "/workspace");
    assert!(!config.tty);
    assert!(config.attach_stdout && config.attach_stderr);
    assert!(!config.auto_remove);
    assert_eq!(config.binds, vec!["/home/me/project:/workspace".to_string()]);
}

#[test]
fn container_names_are_fresh() {
    let a = container_name();
    let b = container_name();
    assert!(a.starts_with("now-"));
    assert_eq!(a.len(), 36);
    assert!(a[4..].chars().all(|c| c.is_ascii_digit() || ('a'..='f').contains(&c)));
    let id: Vec<char> = a[4..].chars().collect();
    assert_eq!(id[12], '4');
    assert!(['8', '9', 'a', 'b'].contains(&id[16]));
    assert_ne!(a, b);
}

#[test]
fn pull_events_update_or_fail() {
    let step = pull_step("alpine:latest", Some("Downloading".to_string()), None);
    assert_eq!(step.message, Some("Downloading".to_string()));
    assert_eq!(step.failure, None);
    let step = pull_step("alpine:latest", None, Some("manifest unknown".to_string()));
    assert_eq!(step.message, None);
    let failure = step.failure.unwrap();
    assert_eq!(failure.message(), "failed to pull alpine:latest: manifest unknown");
    assert_eq!(preparing_message("alpine:latest"), "preparing alpine:latest");
    assert_eq!(ready_message("alpine:latest"), "ready alpine:latest");
}

#[test]
fn logs_are_routed_by_source() {
    assert_eq!(log_destination(&LogSource::StdOut), Some(OutputStream::Stdout));
    assert_eq!(log_destination(&LogSource::StdErr), Some(OutputStream::Stderr));
    assert_eq!(log_destination(&LogSource::Console), Some(OutputStream::Stdout));
    assert_eq!(log_destination(&LogSource::StdIn), None);
    let logs = log_options();
    assert!(logs.follow && logs.stdout && logs.stderr);
    assert_eq!(logs.tail, "all");
    let remove = remove_options();
    assert!(remove.force);
    assert!(!remove.remove_volumes);
}

#[test]
fn created_containers_are_removed() {
    assert_eq!(next_stage(RunStage::Pull, true), RunStage::Create);
    assert_eq!(next_stage(RunStage::Pull, false), RunStage::Finish);
    assert_eq!(next_stage(RunStage::Create, true), RunStage::Run);
    assert_eq!(next_stage(RunStage::Create, false), RunStage::Finish);
    assert_eq!(next_stage(RunStage::Run, false), RunStage::Remove);
    assert_eq!(next_stage(RunStage::Run, true), RunStage::Remove);
    assert_eq!(next_stage(RunStage::Remove, false), RunStage::Finish);
    assert_eq!(next_stage(RunStage::Finish, true), RunStage::Finish);
}

#[test]
fn split_of_joined_reference() {
    for (name, tag) in [("alpine", "3.19"), ("localhost:5000/a/b", "v1"), ("x", "")] {
        assert_eq!(split_image(&format!("{}:{}", name, tag)), pair(name, tag));
    }
}

#[test]
fn shell_container_is_interactive() {
    let config = shell_container_config("python:3.9-alpine", "/home/me/project");
    assert_eq!(config.image, "python:3.9-alpine");
    assert_eq!(config.cmd, vec!["sh".to_string()]);
    assert_eq!(config.working_dir, "/workspace");
    assert!(config.tty && config.open_stdin && config.attach_stdin);
    assert!(config.attach_stdout && config.attach_stderr);
    assert!(!config.auto_remove);
    assert_eq!(config.binds, vec!["/home/me/project:/workspace".to_string()]);
    let run = RunRequest { image: "a".to_string(), command: vec![], workdir: ".".to_string() };
    let plain = container_config(&run, "/p");
    assert!(!plain.tty && !plain.open_stdin && !plain.attach_stdin);
}

#[test]
fn removal_failure_only_warns() {
    assert_eq!(report_run(Ok::<u8, String>(3), true), (Ok(3), false));
    assert_eq!(report_run(Ok::<u8, String>(0), false), (Ok(0), true));
    assert_eq!(report_run(Err::<u8, String>("boom".to_string()), false), (Err("boom".to_string()), true));
    assert_eq!(
        removal_warning("abc", "gone"),
        "failed to remove container abc: gone"
    );
}
