use now::image::{image_for_toolchain, infer_image, ProjectFiles};
use now::ui::magic_color;

fn files(names: &[&str]) -> ProjectFiles {
    ProjectFiles::probe(|name: &str| names.contains(&name))
}

#[test]
fn infers_images_by_priority() {
    assert_eq!(infer_image(&files(&[])), "alpine:latest");
    assert_eq!(infer_image(&files(&["package.json"])), "node:20-alpine");
    assert_eq!(
        infer_image(&files(&["package.json", "Cargo.toml", "go.mod"])),
        "node:20-alpine"
    );
    assert_eq!(infer_image(&files(&["pyproject.toml"])), "python:3.12-alpine");
    assert_eq!(infer_image(&files(&["requirements.txt", "go.mod"])), "python:3.12-alpine");
    assert_eq!(infer_image(&files(&["go.mod", "Cargo.toml"])), "golang:1.22-alpine");
    assert_eq!(infer_image(&files(&["Cargo.toml"])), "rust:1-alpine");
    assert_eq!(infer_image(&files(&["README.md"])), "alpine:latest");
}

#[test]
fn probe_asks_for_each_marker() {
    let probed = files(&["go.mod", "requirements.txt"]);
    assert_eq!(
        probed,
        ProjectFiles {
            package_json: false,
            pyproject_toml: false,
            requirements_txt: true,
            go_mod: true,
            cargo_toml: false,
        }
    );
}

#[test]
fn maps_toolchain_selectors() {
    assert_eq!(image_for_toolchain("node@20"), Some("node:20-alpine".to_string()));
    assert_eq!(image_for_toolchain("python@3.9"), Some("python:3.9-alpine".to_string()));
    assert_eq!(image_for_toolchain("go@1.22"), Some("golang:1.22-alpine".to_string()));
    assert_eq!(image_for_toolchain("golang@1.21"), Some("golang:1.21-alpine".to_string()));
    assert_eq!(image_for_toolchain("rust@1.80"), Some("rust:1.80-alpine".to_string()));
    assert_eq!(image_for_toolchain("ruby@3"), None);
    assert_eq!(image_for_toolchain(""), None);
    assert_eq!(image_for_toolchain("@20"), None);
    assert_eq!(image_for_toolchain("node@"), Some("node:-alpine".to_string()));
    assert_eq!(image_for_toolchain("node@20@1"), Some("node:20@1-alpine".to_string()));
}

#[test]
fn missing_version_means_latest() {
    for name in ["node", "python", "go", "golang", "rust", "ruby"] {
        assert_eq!(
            image_for_toolchain(name),
            image_for_toolchain(&format!("{}@latest", name))
        );
    }
    assert_eq!(image_for_toolchain("python"), Some("python:latest-alpine".to_string()));
}

#[test]
fn accent_color() {
    assert_eq!(magic_color(), "#8A2BE2");
}
