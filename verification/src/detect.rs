//! Choosing the Docker endpoint that the runner talks to.
use vstd::prelude::*;

verus! {

/// The execution backend, with a human-readable hint of where it is reached.
#[derive(Debug, Clone, PartialEq, Eq)]
pub enum Backend {
    Docker { hint: String },
}

/// `rel` appended to the path `base` as one more component: a '/' is put
/// between them unless `base` is empty or already ends with one.
pub open spec fn spec_join_path(base: Seq<char>, rel: Seq<char>) -> Seq<char> {
    if base.len() == 0 {
        rel
    } else if base.last() == '/' {
        base + rel
    } else {
        base + seq!['/'] + rel
    }
}

/// Appends the relative path `rel` to the path `base`.
pub fn join_path(base: &str, rel: &str) -> (r: String)
    ensures
        r@ == spec_join_path(base@, rel@),
        base@.len() == 0 ==> r@ == rel@,
        base@.len() > 0 && base@.last() == '/' ==> r@ == base@ + rel@,
        base@.len() > 0 && base@.last() != '/' ==> r@ == base@ + seq!['/'] + rel@,
{
    let n = base.unicode_len();
    if n == 0 {
        String::from_str(rel)
    } else if base.get_char(n - 1) == '/' {
        String::from_str(base).concat(rel)
    } else {
        proof {
            reveal_strlit("/");
        }
        String::from_str(base).concat("/").concat(rel)
    }
}

/// The places where a Docker-compatible daemon listens on a Unix socket, in
/// the order they are tried: the system socket, then those of Docker
/// Desktop, Colima and OrbStack under the home directory, if there is one.
pub open spec fn spec_socket_candidates(home: Option<Seq<char>>) -> Seq<Seq<char>> {
    match home {
        Some(h) => seq![
            "/var/run/docker.sock"@,
            spec_join_path(h, ".docker/run/docker.sock"@),
            spec_join_path(h, ".colima/default/docker.sock"@),
            spec_join_path(h, ".orbstack/run/docker.sock"@),
        ],
        None => seq!["/var/run/docker.sock"@],
    }
}

/// The view of an optional string.
pub open spec fn opt_view(s: Option<String>) -> Option<Seq<char>> {
    match s {
        Some(t) => Some(t@),
        None => None,
    }
}

/// Lists the Unix sockets to try, given the home directory.
pub fn socket_candidates(home: Option<String>) -> (r: Vec<String>)
    ensures
        r@.len() == spec_socket_candidates(opt_view(home)).len(),
        forall|i: int| 0 <= i < r@.len() ==> #[trigger] r@[i]@ == spec_socket_candidates(opt_view(home))[i],
{
    let mut r: Vec<String> = Vec::new();
    r.push(String::from_str("/var/run/docker.sock"));
    match home {
        Some(h) => {
            r.push(join_path(h.as_str(), ".docker/run/docker.sock"));
            r.push(join_path(h.as_str(), ".colima/default/docker.sock"));
            r.push(join_path(h.as_str(), ".orbstack/run/docker.sock"));
        },
        None => {},
    }
    r
}

/// Returns the first of `candidates` for which `is_present` answers `true`.
pub fn first_present<F: Fn(&String) -> bool>(candidates: &Vec<String>, is_present: F) -> (r: Option<String>)
    requires
        forall|p: &String| #[trigger] call_requires(is_present, (p,)),
    ensures
        match r {
            Some(path) => exists|i: int| #![trigger candidates@[i]]
                0 <= i < candidates@.len() && path == candidates@[i]
                    && call_ensures(is_present, (&candidates@[i],), true)
                    && forall|j: int| 0 <= j < i ==> call_ensures(is_present, (&candidates@[j],), false),
            None => forall|j: int| 0 <= j < candidates@.len() ==> call_ensures(is_present, (&candidates@[j],), false),
        },
{
    let mut i: usize = 0;
    while i < candidates.len()
        invariant
            i <= candidates@.len(),
            forall|p: &String| #[trigger] call_requires(is_present, (p,)),
            forall|j: int| 0 <= j < i ==> call_ensures(is_present, (&candidates@[j],), false),
        decreases candidates@.len() - i,
    {
        let present = is_present(&candidates[i]);
        if present {
            let path = candidates[i].clone();
            assert(path == candidates@[i as int]);
            return Some(path);
        }
        i = i + 1;
    }
    None
}

/// Finds the Unix socket of a local Docker-compatible daemon: on a Unix
/// host, the first candidate, in the order of `spec_socket_candidates`, that
/// `is_present` reports as existing; on other hosts there is none, and
/// `is_present` is not asked.
pub fn detect_unix_socket<F: Fn(&String) -> bool>(on_unix: bool, home: Option<String>, is_present: F) -> (r: Option<String>)
    requires
        forall|p: &String| #[trigger] call_requires(is_present, (p,)),
    ensures
        !on_unix ==> r is None,
        on_unix ==> ({
            let c = spec_socket_candidates(opt_view(home));
            match r {
                Some(path) => exists|i: int| #![trigger c[i]]
                    0 <= i < c.len() && path@ == c[i] && call_ensures(is_present, (&path,), true)
                        && forall|j: int| #![trigger c[j]] 0 <= j < i ==> exists|s: String|
                            s@ == c[j] && #[trigger] call_ensures(is_present, (&s,), false),
                None => forall|j: int| #![trigger c[j]] 0 <= j < c.len() ==> exists|s: String|
                    s@ == c[j] && #[trigger] call_ensures(is_present, (&s,), false),
            }
        }),
{
    if !on_unix {
        return None;
    }
    let ghost c = spec_socket_candidates(opt_view(home));
    let candidates = socket_candidates(home);
    let ghost v = candidates@;
    let r = first_present(&candidates, is_present);
    proof {
        match r {
            Some(ref path) => {
                let i = choose|i: int|
                    0 <= i < v.len() && path == v[i] && call_ensures(is_present, (&v[i],), true)
                        && forall|j: int| 0 <= j < i ==> call_ensures(is_present, (&v[j],), false);
                assert(path@ == c[i]);
                assert forall|j: int| #![trigger c[j]] 0 <= j < i implies exists|s: String|
                    s@ == c[j] && #[trigger] call_ensures(is_present, (&s,), false) by {
                    assert(v[j]@ == c[j]);
                    assert(call_ensures(is_present, (&v[j],), false));
                }
                assert(call_ensures(is_present, (path,), true));
                assert(0 <= i < c.len() && path@ == c[i]);
            },
            None => {
                assert forall|j: int| #![trigger c[j]] 0 <= j < c.len() implies exists|s: String|
                    s@ == c[j] && #[trigger] call_ensures(is_present, (&s,), false) by {
                    assert(v[j]@ == c[j]);
                    assert(call_ensures(is_present, (&v[j],), false));
                }
            },
        }
    }
    r
}

/// The hint of the backend that is chosen from what was found on the host.
pub open spec fn spec_backend_hint(
    docker_host: Option<Seq<char>>,
    unix_socket: Option<Seq<char>>,
    on_windows: bool,
) -> Seq<char> {
    match docker_host {
        Some(host) => "DOCKER_HOST="@ + host,
        None => match unix_socket {
            Some(socket) => socket,
            None => if on_windows {
                "\\\\.\\pipe\\docker_engine"@
            } else {
                "local Docker defaults"@
            },
        },
    }
}

impl Backend {
    /// Where the backend is reached.
    pub open spec fn spec_hint(&self) -> Seq<char> {
        match self {
            Backend::Docker { hint } => hint@,
        }
    }
}

/// Chooses the backend: the `DOCKER_HOST` setting when there is one, else a
/// Unix socket that was found, else the Windows named pipe on Windows, else
/// the Docker client's local defaults.
pub fn detect_backend(docker_host: Option<String>, unix_socket: Option<String>, on_windows: bool) -> (r: Backend)
    ensures
        r.spec_hint() == spec_backend_hint(opt_view(docker_host), opt_view(unix_socket), on_windows),
{
    if let Some(host) = docker_host {
        return Backend::Docker { hint: String::from_str("DOCKER_HOST=").concat(host.as_str()) };
    }
    if let Some(socket) = unix_socket {
        return Backend::Docker { hint: socket };
    }
    if on_windows {
        return Backend::Docker { hint: String::from_str("\\\\.\\pipe\\docker_engine") };
    }
    Backend::Docker { hint: String::from_str("local Docker defaults") }
}

/// Joining puts exactly one '/' between a non-empty base and the relative
/// path: it adds one when the base does not end in '/', and none when it
/// does; an empty base gives the relative path itself.
pub proof fn law_join_path_one_separator(base: Seq<char>, rel: Seq<char>)
    ensures
        base.len() == 0 ==> spec_join_path(base, rel) == rel,
        base.len() > 0 && base.last() == '/' ==> spec_join_path(base, rel) == base + rel,
        base.len() > 0 && base.last() != '/' ==> spec_join_path(base, rel) == base + seq!['/']
            + rel,
{
}

/// The sockets tried for a home directory that does not end in '/' are the
/// system socket, then those of Docker Desktop, Colima and OrbStack, each
/// the home directory, a '/' and the socket's path under it; without a home
/// directory only the system socket is tried.
pub proof fn law_socket_candidates_under_home(home: Option<Seq<char>>)
    ensures
        home is None ==> spec_socket_candidates(home) == seq!["/var/run/docker.sock"@],
        home matches Some(h) ==> (h.len() > 0 && h.last() != '/' ==> spec_socket_candidates(home)
            == seq![
            "/var/run/docker.sock"@,
            h + seq!['/'] + ".docker/run/docker.sock"@,
            h + seq!['/'] + ".colima/default/docker.sock"@,
            h + seq!['/'] + ".orbstack/run/docker.sock"@,
        ]),
{
}

} // verus!
