//! The Docker executor: how an image reference is split for a pull, how the
//! container is configured, and how the daemon's answers are read.
use vstd::prelude::*;
use crate::error::NowError;
use crate::text::{find_last, last_index_of, owned_range};

verus! {

/// The tag that an image reference without a tag stands for.
pub open spec fn latest_tag() -> Seq<char> {
    seq!['l', 'a', 't', 'e', 's', 't']
}

/// How an image reference splits into the name and the tag that are pulled.
///
/// The tag follows the last ':' of the reference, provided that no '/' comes
/// after that ':' (a ':' before the last '/' belongs to a registry port).
/// Without such a ':' the whole reference is the name and the tag is `latest`.
pub open spec fn spec_split_image(s: Seq<char>) -> (Seq<char>, Seq<char>) {
    let slash = last_index_of(s, '/');
    let colon = last_index_of(s, ':');
    if colon >= 0 && (slash < 0 || colon > slash) {
        (s.subrange(0, colon), s.subrange(colon + 1, s.len() as int))
    } else {
        (s, latest_tag())
    }
}

/// Splits an image reference into the name and the tag to pull.
pub fn split_image(image: &str) -> (r: (String, String))
    ensures
        r.0@ == spec_split_image(image@).0,
        r.1@ == spec_split_image(image@).1,
{
    let last_slash = find_last(image, '/');
    let last_colon = find_last(image, ':');
    let n = image.unicode_len();
    match last_colon {
        Some(colon) => {
            let tagged = match last_slash {
                None => true,
                Some(slash) => colon > slash,
            };
            if tagged {
                proof {
                    crate::text::lemma_last_index_of(image@, ':');
                }
                return (owned_range(image, 0, colon), owned_range(image, colon + 1, n));
            }
        },
        None => {},
    }
    let latest = String::from_str("latest");
    proof {
        reveal_strlit("latest");
        assert(latest@ =~= latest_tag());
    }
    (owned_range(image, 0, n), latest)
}


/// Splitting an image reference loses nothing: when the reference carries a
/// tag, the name, a ':' and the tag give back the reference, and the tag
/// holds neither ':' nor '/'; otherwise the name is the whole reference and
/// the tag is `latest`.
pub proof fn law_split_image_rejoins(s: Seq<char>)
    ensures
        ({
            let (name, tag) = spec_split_image(s);
            ||| (s == name + seq![':'] + tag && !tag.contains(':') && !tag.contains('/'))
            ||| (name == s && tag == latest_tag())
        }),
{
    let slash = last_index_of(s, '/');
    let colon = last_index_of(s, ':');
    crate::text::lemma_last_index_of(s, '/');
    crate::text::lemma_last_index_of(s, ':');
    if colon >= 0 && (slash < 0 || colon > slash) {
        let name = s.subrange(0, colon);
        let tag = s.subrange(colon + 1, s.len() as int);
        assert(s =~= name + seq![':'] + tag);
        assert forall|k: int| 0 <= k < tag.len() implies tag[k] != ':' && tag[k] != '/' by {
            assert(tag[k] == s[colon + 1 + k]);
        }
    }
}

/// Joining a name and a tag that holds neither ':' nor '/' with a ':' gives
/// a reference that splits back into that name and that tag.
pub proof fn law_split_image_of_tagged(name: Seq<char>, tag: Seq<char>)
    requires
        !tag.contains(':'),
        !tag.contains('/'),
    ensures
        spec_split_image(name + seq![':'] + tag) == (name, tag),
{
    let s = name + seq![':'] + tag;
    let n = name.len() as int;
    crate::text::lemma_last_index_of(s, ':');
    crate::text::lemma_last_index_of(s, '/');
    assert(s[n] == ':');
    assert forall|j: int| n < j < s.len() implies s[j] != ':' && s[j] != '/' by {
        assert(s[j] == tag[j - n - 1]);
    }
    let colon = last_index_of(s, ':');
    let slash = last_index_of(s, '/');
    assert(colon == n);
    assert(slash < n);
    assert(s.subrange(0, n) =~= name);
    assert(s.subrange(n + 1, s.len() as int) =~= tag);
}

/// What the runner asks the Docker executor to do: run `command` in a
/// container of `image`, with `workdir` mounted as the workspace.
#[derive(Debug, Clone, PartialEq, Eq)]
pub struct RunRequest {
    pub image: String,
    pub command: Vec<String>,
    pub workdir: String,
}

/// Whether `c` is a lowercase hexadecimal digit.
pub open spec fn is_lower_hex(c: char) -> bool {
    ('0' <= c && c <= '9') || ('a' <= c && c <= 'f')
}

/// Whether `s` has the form of a UUID in its simple text form: 32 lowercase
/// hexadecimal digits.
pub open spec fn is_simple_uuid(s: Seq<char>) -> bool {
    s.len() == 32 && forall|i: int| 0 <= i < s.len() ==> is_lower_hex(#[trigger] s[i])
}

/// Whether `s` is the simple text form of a random (version 4, RFC 4122
/// variant) UUID: 32 lowercase hexadecimal digits whose 13th digit, the
/// version, is `4` and whose 17th digit, which holds the variant bits `10`,
/// is one of `8`, `9`, `a` and `b`.
pub open spec fn is_random_uuid_simple(s: Seq<char>) -> bool {
    &&& is_simple_uuid(s)
    &&& s[12] == '4'
    &&& (s[16] == '8' || s[16] == '9' || s[16] == 'a' || s[16] == 'b')
}

/// A fresh random (version 4) UUID in its simple text form.
///
/// Calls `uuid::Uuid::new_v4` and formats it with `Uuid::simple`. The
/// contract claims the shape of the text: 32 lowercase hex digits, written
/// from the UUID's bytes most significant first, with the version digit
/// (`4`) and the variant digit (`8` to `b`) that `new_v4` sets by masking its
/// random number. The other 30 digits are random and nothing is said of them.
#[verifier::external_body]
fn random_uuid_simple() -> (r: String)
    ensures
        is_random_uuid_simple(r@),
{
    uuid::Uuid::new_v4().simple().to_string()
}

/// A fresh name for a container: `now-` followed by a random UUID.
pub fn container_name() -> (r: String)
    ensures
        exists|id: Seq<char>| is_random_uuid_simple(id) && r@ == "now-"@ + id,
{
    let id = random_uuid_simple();
    String::from_str("now-").concat(id.as_str())
}

/// The directory inside the container where the project is mounted and
/// where the command runs.
pub open spec fn workspace_dir() -> Seq<char> {
    "/workspace"@
}

/// The configuration of the container that runs a request.
#[derive(Debug, Clone, PartialEq, Eq)]
pub struct ContainerConfig {
    pub image: String,
    pub cmd: Vec<String>,
    pub working_dir: String,
    pub tty: bool,
    pub open_stdin: bool,
    pub attach_stdin: bool,
    pub attach_stdout: bool,
    pub attach_stderr: bool,
    pub auto_remove: bool,
    pub binds: Vec<String>,
}

/// A copy of a list of strings.
pub fn copy_strings(v: &Vec<String>) -> (r: Vec<String>)
    ensures
        r@.len() == v@.len(),
        forall|i: int| 0 <= i < v@.len() ==> #[trigger] r@[i] == v@[i],
{
    let mut r: Vec<String> = Vec::new();
    let mut i: usize = 0;
    while i < v.len()
        invariant
            i <= v@.len(),
            r@.len() == i,
            forall|j: int| 0 <= j < i ==> #[trigger] r@[j] == v@[j],
        decreases v@.len() - i,
    {
        r.push(v[i].clone());
        i = i + 1;
    }
    r
}

/// Configures the container for a request: the request's image and command,
/// run in `/workspace` without a terminal or input, with stdout and stderr
/// attached,
/// not removed by the daemon on exit (the runner removes it), and with the
/// resolved project directory `mount_path` bound to `/workspace`.
pub fn container_config(request: &RunRequest, mount_path: &str) -> (r: ContainerConfig)
    ensures
        r.image == request.image,
        r.cmd@ == request.command@,
        r.working_dir@ == workspace_dir(),
        !r.tty,
        !r.open_stdin,
        !r.attach_stdin,
        r.attach_stdout,
        r.attach_stderr,
        !r.auto_remove,
        r.binds@.len() == 1,
        r.binds@[0]@ == mount_path@ + ":"@ + workspace_dir(),
{
    let bind = String::from_str(mount_path).concat(":").concat("/workspace");
    let mut binds: Vec<String> = Vec::new();
    binds.push(bind);
    let cmd = copy_strings(&request.command);
    assert(cmd@ =~= request.command@);
    ContainerConfig {
        image: request.image.clone(),
        cmd,
        working_dir: String::from_str("/workspace"),
        tty: false,
        open_stdin: false,
        attach_stdin: false,
        attach_stdout: true,
        attach_stderr: true,
        auto_remove: false,
        binds,
    }
}

/// The program that an interactive shell session runs.
pub open spec fn shell_program() -> Seq<char> {
    "sh"@
}

/// Configures the container of an interactive shell session: a shell in a
/// container of `image`, in `/workspace` with the resolved project directory
/// `mount_path` bound there, with a terminal and with its input kept open and
/// attached along with its output. As for a run, the runner removes the
/// container once the session ends.
pub fn shell_container_config(image: &str, mount_path: &str) -> (r: ContainerConfig)
    ensures
        r.image@ == image@,
        r.cmd@.len() == 1,
        r.cmd@[0]@ == shell_program(),
        r.working_dir@ == workspace_dir(),
        r.tty,
        r.open_stdin,
        r.attach_stdin,
        r.attach_stdout,
        r.attach_stderr,
        !r.auto_remove,
        r.binds@.len() == 1,
        r.binds@[0]@ == mount_path@ + ":"@ + workspace_dir(),
{
    let bind = String::from_str(mount_path).concat(":").concat("/workspace");
    let mut binds: Vec<String> = Vec::new();
    binds.push(bind);
    let mut cmd: Vec<String> = Vec::new();
    cmd.push(String::from_str("sh"));
    ContainerConfig {
        image: String::from_str(image),
        cmd,
        working_dir: String::from_str("/workspace"),
        tty: true,
        open_stdin: true,
        attach_stdin: true,
        attach_stdout: true,
        attach_stderr: true,
        auto_remove: false,
        binds,
    }
}

/// The warning shown when the container could not be removed.
pub fn removal_warning(container_id: &str, error: &str) -> (r: String)
    ensures
        r@ == "failed to remove container "@ + container_id@ + ": "@ + error@,
{
    String::from_str("failed to remove container ").concat(container_id).concat(": ").concat(error)
}

/// What the runner reports once the container has been removed, or its
/// removal failed: the outcome of the run itself, whatever the removal gave,
/// and whether a warning about the removal is shown (exactly when it failed).
pub fn report_run<T>(run_outcome: T, removal_succeeded: bool) -> (r: (T, bool))
    ensures
        r.0 == run_outcome,
        r.1 == !removal_succeeded,
{
    (run_outcome, !removal_succeeded)
}

/// How the container's logs are read: followed to the end, both output
/// streams, from the first line.
#[derive(Debug, Clone, PartialEq, Eq)]
pub struct LogOptions {
    pub follow: bool,
    pub stdout: bool,
    pub stderr: bool,
    pub tail: String,
}

/// The options with which the container's logs are streamed.
pub fn log_options() -> (r: LogOptions)
    ensures
        r.follow,
        r.stdout,
        r.stderr,
        r.tail@ == "all"@,
{
    LogOptions { follow: true, stdout: true, stderr: true, tail: String::from_str("all") }
}

/// How the container is removed once it has run: forcibly, keeping its
/// volumes.
#[derive(Debug, Clone, PartialEq, Eq)]
pub struct RemoveOptions {
    pub force: bool,
    pub remove_volumes: bool,
}

/// The options with which the container is removed.
pub fn remove_options() -> (r: RemoveOptions)
    ensures
        r.force,
        !r.remove_volumes,
{
    RemoveOptions { force: true, remove_volumes: false }
}

/// Where a chunk of container output comes from.
#[derive(Debug, Clone, PartialEq, Eq)]
pub enum LogSource {
    StdOut,
    StdErr,
    Console,
    StdIn,
}

/// A terminal output stream of the runner.
#[derive(Debug, Clone, PartialEq, Eq)]
pub enum OutputStream {
    Stdout,
    Stderr,
}

/// Where a chunk of container output is written: its standard error to the
/// runner's standard error, its standard output and console output to the
/// runner's standard output, and standard input nowhere.
pub fn log_destination(source: &LogSource) -> (r: Option<OutputStream>)
    ensures
        match source {
            LogSource::StdOut => r == Some(OutputStream::Stdout),
            LogSource::StdErr => r == Some(OutputStream::Stderr),
            LogSource::Console => r == Some(OutputStream::Stdout),
            LogSource::StdIn => r is None,
        },
{
    match source {
        LogSource::StdOut => Some(OutputStream::Stdout),
        LogSource::StdErr => Some(OutputStream::Stderr),
        LogSource::Console => Some(OutputStream::Stdout),
        LogSource::StdIn => None,
    }
}

/// The exit code that reports a failure.
pub open spec fn failure_code() -> u8 {
    1
}

/// The runner's exit code for a container's exit status: the status itself
/// when it fits in a byte, and the failure code otherwise.
pub open spec fn spec_code_to_exit(code: int) -> u8 {
    if 0 <= code <= 255 {
        code as u8
    } else {
        failure_code()
    }
}

/// Converts a container's exit status to the runner's exit code.
pub fn code_to_exit(code: i64) -> (r: u8)
    ensures
        r == spec_code_to_exit(code as int),
        0 <= code <= 255 ==> r as int == code,
        !(0 <= code <= 255) ==> r == 1,
{
    if 0 <= code && code <= 255 {
        code as u8
    } else {
        1
    }
}


/// The message shown while an image is being prepared.
pub fn preparing_message(image: &str) -> (r: String)
    ensures
        r@ == "preparing "@ + image@,
{
    String::from_str("preparing ").concat(image)
}

/// The message shown once an image is ready.
pub fn ready_message(image: &str) -> (r: String)
    ensures
        r@ == "ready "@ + image@,
{
    String::from_str("ready ").concat(image)
}

/// What the runner does with one progress event of an image pull.
#[derive(Debug, Clone, PartialEq, Eq)]
pub struct PullStep {
    /// The new progress message, if the event carries a status.
    pub message: Option<String>,
    /// The error that ends the pull, if the event carries an error message.
    pub failure: Option<NowError>,
}

/// Reads one progress event of the pull of `image`: its status, if any,
/// becomes the progress message, and its error message, if any, fails the
/// pull.
pub fn pull_step(image: &str, status: Option<String>, error: Option<String>) -> (r: PullStep)
    ensures
        r.message == status,
        match error {
            Some(detail) => r.failure matches Some(NowError::PullFailed { image: i, detail: d })
                && i@ == image@ && d == detail,
            None => r.failure is None,
        },
{
    let failure = match error {
        Some(detail) => Some(NowError::PullFailed { image: String::from_str(image), detail }),
        None => None,
    };
    PullStep { message: status, failure }
}

/// The runner's exit code once the container's wait stream has given its
/// first answer: the container's exit status, converted, or an error when
/// the stream ended without one.
pub fn exit_from_wait(status_code: Option<i64>) -> (r: Result<u8, NowError>)
    ensures
        match status_code {
            Some(code) => r == Ok::<u8, NowError>(spec_code_to_exit(code as int)),
            None => r == Err::<u8, NowError>(NowError::NoExitStatus),
        },
{
    match status_code {
        Some(code) => Ok(code_to_exit(code)),
        None => Err(NowError::NoExitStatus),
    }
}


/// The stages of running a request in a container.
#[derive(Debug, Clone, Copy, PartialEq, Eq)]
pub enum RunStage {
    /// Pull the image.
    Pull,
    /// Create the container.
    Create,
    /// Start the container, stream its output and wait for its exit.
    Run,
    /// Remove the container.
    Remove,
    /// Report the outcome.
    Finish,
}

/// The stage that follows `stage` when it succeeded or failed: a failed pull
/// or create ends the run (no container exists then); once a container was
/// created it is run, and whatever the run gave, it is removed before the
/// outcome is reported.
pub open spec fn spec_next_stage(stage: RunStage, succeeded: bool) -> RunStage {
    match stage {
        RunStage::Pull => if succeeded { RunStage::Create } else { RunStage::Finish },
        RunStage::Create => if succeeded { RunStage::Run } else { RunStage::Finish },
        RunStage::Run => RunStage::Remove,
        RunStage::Remove => RunStage::Finish,
        RunStage::Finish => RunStage::Finish,
    }
}

/// Decides the stage that follows `stage`.
pub fn next_stage(stage: RunStage, succeeded: bool) -> (r: RunStage)
    ensures
        r == spec_next_stage(stage, succeeded),
{
    match stage {
        RunStage::Pull => if succeeded { RunStage::Create } else { RunStage::Finish },
        RunStage::Create => if succeeded { RunStage::Run } else { RunStage::Finish },
        RunStage::Run => RunStage::Remove,
        RunStage::Remove => RunStage::Finish,
        RunStage::Finish => RunStage::Finish,
    }
}

/// The stages that a run goes through when the stage at each position
/// succeeds as `outcomes` says, starting from the pull.
pub open spec fn spec_stages(outcomes: Seq<bool>) -> Seq<RunStage>
    decreases outcomes.len(),
{
    if outcomes.len() == 0 {
        seq![RunStage::Pull]
    } else {
        let before = spec_stages(outcomes.drop_last());
        before.push(spec_next_stage(before.last(), outcomes.last()))
    }
}

/// Every container that is created is removed: in any run, a created
/// container is run next, and the run is followed by the removal, which is
/// followed by the report; and a run never reaches the container stages
/// after a failed pull or create.
pub proof fn law_created_container_is_removed(outcomes: Seq<bool>, k: int)
    requires
        0 <= k < outcomes.len(),
    ensures
        spec_stages(outcomes).len() == outcomes.len() + 1,
        spec_stages(outcomes)[k] == RunStage::Create && outcomes[k] ==> spec_stages(outcomes)[k + 1] == RunStage::Run,
        spec_stages(outcomes)[k] == RunStage::Run ==> spec_stages(outcomes)[k + 1] == RunStage::Remove,
        spec_stages(outcomes)[k] == RunStage::Remove ==> spec_stages(outcomes)[k + 1] == RunStage::Finish,
        (spec_stages(outcomes)[k] == RunStage::Pull || spec_stages(outcomes)[k] == RunStage::Create) && !outcomes[k]
            ==> spec_stages(outcomes)[k + 1] == RunStage::Finish,
{
    lemma_stages_step(outcomes, k);
}

/// One step of `spec_stages`.
proof fn lemma_stages_step(outcomes: Seq<bool>, k: int)
    requires
        0 <= k < outcomes.len(),
    ensures
        spec_stages(outcomes).len() == outcomes.len() + 1,
        spec_stages(outcomes)[k + 1] == spec_next_stage(spec_stages(outcomes)[k], outcomes[k]),
    decreases outcomes.len(),
{
    lemma_stages_len(outcomes);
    let before = spec_stages(outcomes.drop_last());
    lemma_stages_len(outcomes.drop_last());
    if k < outcomes.len() - 1 {
        lemma_stages_step(outcomes.drop_last(), k);
        assert(spec_stages(outcomes)[k] == before[k]);
        assert(spec_stages(outcomes)[k + 1] == before[k + 1]);
    }
}

/// The length of `spec_stages`.
proof fn lemma_stages_len(outcomes: Seq<bool>)
    ensures
        spec_stages(outcomes).len() == outcomes.len() + 1,
    decreases outcomes.len(),
{
    if outcomes.len() > 0 {
        lemma_stages_len(outcomes.drop_last());
    }
}

/// A status that fits in a byte passes through unchanged as the runner's
/// exit code, so the runner succeeds exactly when the status is 0; any other
/// status gives the failure code 1.
pub proof fn law_exit_status_passes_through(code: int)
    ensures
        0 <= code <= 255 ==> spec_code_to_exit(code) as int == code,
        !(0 <= code <= 255) ==> spec_code_to_exit(code) == 1,
        spec_code_to_exit(code) == 0 <==> code == 0,
{
}

} // verus!
