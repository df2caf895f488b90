//! Choosing a container image: from the files of a project, or from a
//! toolchain selector such as `python@3.9`.
use vstd::prelude::*;
use crate::docker::latest_tag;
use crate::text::{find_first, first_index_of, owned_range, same_text};

verus! {

/// Which of the marker files that decide the default image stand in the
/// project's root directory.
#[derive(Debug, Clone, Copy, PartialEq, Eq)]
pub struct ProjectFiles {
    pub package_json: bool,
    pub pyproject_toml: bool,
    pub requirements_txt: bool,
    pub go_mod: bool,
    pub cargo_toml: bool,
}

impl ProjectFiles {
    /// Asks `is_present`, once for each marker file name, whether that file is
    /// present in the project's root directory.
    pub fn probe<F: Fn(&str) -> bool>(is_present: F) -> (r: ProjectFiles)
        requires
            forall|name: &str| #[trigger] call_requires(is_present, (name,)),
        ensures
            call_ensures(is_present, ("package.json",), r.package_json),
            call_ensures(is_present, ("pyproject.toml",), r.pyproject_toml),
            call_ensures(is_present, ("requirements.txt",), r.requirements_txt),
            call_ensures(is_present, ("go.mod",), r.go_mod),
            call_ensures(is_present, ("Cargo.toml",), r.cargo_toml),
    {
        ProjectFiles {
            package_json: is_present("package.json"),
            pyproject_toml: is_present("pyproject.toml"),
            requirements_txt: is_present("requirements.txt"),
            go_mod: is_present("go.mod"),
            cargo_toml: is_present("Cargo.toml"),
        }
    }
}

/// The image for a project: Node first, then Python, then Go, then Rust,
/// and plain Alpine when no marker file is present.
pub open spec fn spec_infer_image(files: ProjectFiles) -> Seq<char> {
    if files.package_json {
        "node:20-alpine"@
    } else if files.pyproject_toml || files.requirements_txt {
        "python:3.12-alpine"@
    } else if files.go_mod {
        "golang:1.22-alpine"@
    } else if files.cargo_toml {
        "rust:1-alpine"@
    } else {
        "alpine:latest"@
    }
}

/// Picks the default image for a project from its marker files.
pub fn infer_image(files: &ProjectFiles) -> (r: String)
    ensures
        r@ == spec_infer_image(*files),
        files.package_json ==> r@ == "node:20-alpine"@,
        !files.package_json && (files.pyproject_toml || files.requirements_txt) ==> r@
            == "python:3.12-alpine"@,
        !files.package_json && !files.pyproject_toml && !files.requirements_txt && files.go_mod
            ==> r@ == "golang:1.22-alpine"@,
        !files.package_json && !files.pyproject_toml && !files.requirements_txt && !files.go_mod
            && files.cargo_toml ==> r@ == "rust:1-alpine"@,
        !files.package_json && !files.pyproject_toml && !files.requirements_txt && !files.go_mod
            && !files.cargo_toml ==> r@ == "alpine:latest"@,
{
    if files.package_json {
        return String::from_str("node:20-alpine");
    }
    if files.pyproject_toml || files.requirements_txt {
        return String::from_str("python:3.12-alpine");
    }
    if files.go_mod {
        return String::from_str("golang:1.22-alpine");
    }
    if files.cargo_toml {
        return String::from_str("rust:1-alpine");
    }
    String::from_str("alpine:latest")
}

/// A toolchain selector split at its first '@' into name and version; the
/// version is `latest` when there is no '@'.
pub open spec fn spec_toolchain_parts(t: Seq<char>) -> (Seq<char>, Seq<char>) {
    let at = first_index_of(t, '@');
    if at >= 0 {
        (t.subrange(0, at), t.subrange(at + 1, t.len() as int))
    } else {
        (t, latest_tag())
    }
}

/// The image that a toolchain selector names, if its toolchain is known.
pub open spec fn spec_image_for_toolchain(t: Seq<char>) -> Option<Seq<char>> {
    let name = spec_toolchain_parts(t).0;
    let version = spec_toolchain_parts(t).1;
    if name == "node"@ {
        Some("node:"@ + version + "-alpine"@)
    } else if name == "python"@ {
        Some("python:"@ + version + "-alpine"@)
    } else if name == "go"@ || name == "golang"@ {
        Some("golang:"@ + version + "-alpine"@)
    } else if name == "rust"@ {
        Some("rust:"@ + version + "-alpine"@)
    } else {
        None
    }
}

/// Maps a toolchain selector such as `node@20` to its Alpine image.
pub fn image_for_toolchain(toolchain: &str) -> (r: Option<String>)
    ensures
        match r {
            Some(image) => spec_image_for_toolchain(toolchain@) == Some(image@),
            None => spec_image_for_toolchain(toolchain@) is None,
        },
{
    let n = toolchain.unicode_len();
    let (name, version) = match find_first(toolchain, '@') {
        Some(at) => {
            proof {
                crate::text::lemma_first_index_of(toolchain@, '@');
            }
            (owned_range(toolchain, 0, at), owned_range(toolchain, at + 1, n))
        },
        None => {
            let latest = String::from_str("latest");
            proof {
                reveal_strlit("latest");
                assert(latest@ =~= latest_tag());
            }
            (owned_range(toolchain, 0, n), latest)
        },
    };
    assert(name@ == spec_toolchain_parts(toolchain@).0);
    assert(version@ == spec_toolchain_parts(toolchain@).1);
    let prefix = if same_text(name.as_str(), "node") {
        "node:"
    } else if same_text(name.as_str(), "python") {
        "python:"
    } else if same_text(name.as_str(), "go") || same_text(name.as_str(), "golang") {
        "golang:"
    } else if same_text(name.as_str(), "rust") {
        "rust:"
    } else {
        return None;
    };
    Some(String::from_str(prefix).concat(version.as_str()).concat("-alpine"))
}

/// A selector without '@' names the same image as the selector with
/// `@latest` appended.
pub proof fn law_toolchain_version_defaults_to_latest(t: Seq<char>)
    requires
        first_index_of(t, '@') == -1,
    ensures
        spec_image_for_toolchain(t) == spec_image_for_toolchain(
            t + seq!['@'] + latest_tag(),
        ),
{
    let u = t + seq!['@'] + latest_tag();
    crate::text::lemma_first_index_of(t, '@');
    crate::text::lemma_first_index_of(u, '@');
    assert(u[t.len() as int] == '@');
    assert(first_index_of(u, '@') == t.len());
    assert(u.subrange(0, t.len() as int) =~= t);
    assert(u.subrange(t.len() as int + 1, u.len() as int) =~= latest_tag());
}

/// The inferred image is that of the first marker present, in the order
/// `package.json` (Node), `pyproject.toml` or `requirements.txt` (Python),
/// `go.mod` (Go), `Cargo.toml` (Rust); with no marker it is plain Alpine.
/// In particular a `package.json` gives Node whatever else is present.
pub proof fn law_infer_image_first_marker_wins(files: ProjectFiles)
    ensures
        files.package_json ==> spec_infer_image(files) == "node:20-alpine"@,
        !files.package_json && (files.pyproject_toml || files.requirements_txt)
            ==> spec_infer_image(files) == "python:3.12-alpine"@,
        !files.package_json && !files.pyproject_toml && !files.requirements_txt && files.go_mod
            ==> spec_infer_image(files) == "golang:1.22-alpine"@,
        !files.package_json && !files.pyproject_toml && !files.requirements_txt && !files.go_mod
            && files.cargo_toml ==> spec_infer_image(files) == "rust:1-alpine"@,
        !files.package_json && !files.pyproject_toml && !files.requirements_txt && !files.go_mod
            && !files.cargo_toml ==> spec_infer_image(files) == "alpine:latest"@,
{
}

/// A selector `name@version`, where `name` holds no '@', names the image of
/// the toolchain `name` with `version` copied verbatim between the image
/// name and `-alpine`; a name that is not a known toolchain names no image.
pub proof fn law_toolchain_selector_keeps_version(name: Seq<char>, version: Seq<char>)
    requires
        !name.contains('@'),
    ensures
        name == "node"@ ==> spec_image_for_toolchain(name + seq!['@'] + version) == Some(
            "node:"@ + version + "-alpine"@,
        ),
        name == "python"@ ==> spec_image_for_toolchain(name + seq!['@'] + version) == Some(
            "python:"@ + version + "-alpine"@,
        ),
        name == "go"@ || name == "golang"@ ==> spec_image_for_toolchain(
            name + seq!['@'] + version,
        ) == Some("golang:"@ + version + "-alpine"@),
        name == "rust"@ ==> spec_image_for_toolchain(name + seq!['@'] + version) == Some(
            "rust:"@ + version + "-alpine"@,
        ),
        name != "node"@ && name != "python"@ && name != "go"@ && name != "golang"@ && name
            != "rust"@ ==> spec_image_for_toolchain(name + seq!['@'] + version) is None,
{
    reveal_strlit("node");
    reveal_strlit("python");
    reveal_strlit("go");
    reveal_strlit("golang");
    reveal_strlit("rust");
    let t = name + seq!['@'] + version;
    let n = name.len() as int;
    crate::text::lemma_first_index_of(t, '@');
    assert(t[n] == '@');
    assert forall|j: int| 0 <= j < n implies t[j] != '@' by {
        assert(t[j] == name[j]);
    }
    assert(first_index_of(t, '@') == n);
    assert(t.subrange(0, n) =~= name);
    assert(t.subrange(n + 1, t.len() as int) =~= version);
}

} // verus!
