use now::detect::{detect_backend, detect_unix_socket, join_path, socket_candidates, Backend};

fn hint(b: Backend) -> String {
    match b {
        Backend::Docker { hint } => hint,
    }
}

#[test]
fn docker_host_wins() {
    let b = detect_backend(
        Some("tcp://1.2.3.4:2375".to_string()),
        Some("/var/run/docker.sock".to_string()),
        true,
    );
    assert_eq!(hint(b), "DOCKER_HOST=tcp://1.2.3.4:2375");
}

#[test]
fn socket_then_pipe_then_defaults() {
    assert_eq!(
        hint(detect_backend(None, Some("/var/run/docker.sock".to_string()), false)),
        "/var/run/docker.sock"
    );
    assert_eq!(hint(detect_backend(None, None, true)), r"\\.\pipe\docker_engine");
    assert_eq!(hint(detect_backend(None, None, false)), "local Docker defaults");
}

#[test]
fn candidates_follow_home() {
    assert_eq!(socket_candidates(None), vec!["/var/run/docker.sock".to_string()]);
    assert_eq!(
        socket_candidates(Some("/home/me".to_string())),
        vec![
            "/var/run/docker.sock".to_string(),
            "/home/me/.docker/run/docker.sock".to_string(),
            "/home/me/.colima/default/docker.sock".to_string(),
            "/home/me/.orbstack/run/docker.sock".to_string(),
        ]
    );
    assert_eq!(join_path("/home/me/", "a/b"), "/home/me/a/b");
    assert_eq!(join_path("", "a/b"), "a/b");
    assert_eq!(join_path("rel", "x"), "rel/x");
}

#[test]
fn first_existing_socket_is_chosen() {
    let home = Some("/home/me".to_string());
    let found = detect_unix_socket(true, home.clone(), |p: &String| {
        p.ends_with(".colima/default/docker.sock") || p.ends_with(".orbstack/run/docker.sock")
    });
    assert_eq!(found, Some("/home/me/.colima/default/docker.sock".to_string()));
    let found = detect_unix_socket(true, home.clone(), |_p: &String| true);
    assert_eq!(found, Some("/var/run/docker.sock".to_string()));
    assert_eq!(detect_unix_socket(true, home.clone(), |_p: &String| false), None);
    assert_eq!(detect_unix_socket(false, home, |_p: &String| true), None);
}
