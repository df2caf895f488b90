//! The decisions of the subcommands: what `now run` runs, how a configured
//! pipeline proceeds from step to step, and what `now shell` and `now init`
//! answer.
use vstd::prelude::*;
use crate::config::{Command, NowConfig, Step};
use crate::detect::Backend;
use crate::docker::{spec_code_to_exit, failure_code};
use crate::error::NowError;
use crate::image::{infer_image, image_for_toolchain, spec_infer_image, spec_image_for_toolchain, ProjectFiles};

verus! {

/// What `now run` does.
#[derive(Debug, Clone, PartialEq, Eq)]
pub enum RunPlan<'a> {
    /// Run the configured command of that name.
    Configured(&'a Command),
    /// Run the command line in a container of the image.
    Container { image: String, command: Vec<String> },
}

/// Whether `now run` looks its command up in `.now.yaml`: only when no image
/// is forced and the command line is a single word.
pub open spec fn spec_consults_config(image: Option<String>, command: Seq<String>) -> bool {
    image is None && command.len() == 1
}

/// Whether `now run` looks its command up in `.now.yaml`.
pub fn consults_config(image: &Option<String>, command: &Vec<String>) -> (r: bool)
    ensures
        r == spec_consults_config(*image, command@),
{
    image.is_none() && command.len() == 1
}

/// Decides what `now run` does. When no image is forced, the command line is
/// a single word and the configuration has a command of that name, that
/// command runs. Otherwise the command line runs in a container of the
/// forced image, or of the image inferred from the project's files.
pub fn plan_run<'a>(
    image: Option<String>,
    command: Vec<String>,
    config: Option<&'a NowConfig>,
    files: &ProjectFiles,
) -> (r: RunPlan<'a>)
    ensures
        ({
            let configured = spec_consults_config(image, command@) && config is Some
                && config->Some_0.view().contains_key(command@[0]@);
            if configured {
                r matches RunPlan::Configured(c) && *c == config->Some_0.view()[command@[0]@]
            } else {
                r matches RunPlan::Container { image: img, command: cmd } && cmd == command
                    && match image {
                    Some(forced) => img == forced,
                    None => img@ == spec_infer_image(*files),
                }
            }
        }),
{
    if consults_config(&image, &command) {
        if let Some(cfg) = config {
            if let Some(c) = cfg.get(&command[0]) {
                return RunPlan::Configured(c);
            }
        }
    }
    let image = match image {
        Some(forced) => forced,
        None => infer_image(files),
    };
    RunPlan::Container { image, command }
}

/// The line that announces the backend and image of a run.
pub fn announce_backend(backend: &Backend, image: &str) -> (r: String)
    ensures
        r@ == "using Docker fallback via "@ + backend.spec_hint() + "; image "@ + image@,
{
    match backend {
        Backend::Docker { hint } => String::from_str("using Docker fallback via ").concat(
            hint.as_str(),
        ).concat("; image ").concat(image),
    }
}

/// The next move of a configured pipeline.
#[derive(Debug, Clone, PartialEq, Eq)]
pub enum PipelineAction {
    /// Run the step at this index.
    RunStep(usize),
    /// Stop, with this exit code.
    Finish(u8),
}

/// The first move of a pipeline of `count` steps.
pub open spec fn spec_pipeline_start(count: nat) -> PipelineAction {
    if count == 0 {
        PipelineAction::Finish(0)
    } else {
        PipelineAction::RunStep(0)
    }
}

/// The move after step `finished` of a pipeline of `count` steps ended with
/// `status`: stop with that status if it is not success, else run the next
/// step, else stop with success.
pub open spec fn spec_pipeline_after(count: nat, finished: nat, status: u8) -> PipelineAction {
    if status != 0 {
        PipelineAction::Finish(status)
    } else if finished + 1 < count {
        PipelineAction::RunStep((finished + 1) as usize)
    } else {
        PipelineAction::Finish(0)
    }
}

/// Starts a pipeline of `count` steps.
pub fn pipeline_start(count: usize) -> (r: PipelineAction)
    ensures
        r == spec_pipeline_start(count as nat),
{
    if count == 0 {
        PipelineAction::Finish(0)
    } else {
        PipelineAction::RunStep(0)
    }
}

/// Decides the move after step `finished` of a pipeline of `count` steps
/// ended with exit code `status`.
pub fn pipeline_after(count: usize, finished: usize, status: u8) -> (r: PipelineAction)
    requires
        finished < count,
    ensures
        r == spec_pipeline_after(count as nat, finished as nat, status),
{
    if status != 0 {
        PipelineAction::Finish(status)
    } else if finished + 1 < count {
        PipelineAction::RunStep(finished + 1)
    } else {
        PipelineAction::Finish(0)
    }
}

/// The exit code of a pipeline whose steps end with `statuses`: that of the
/// first step that fails, or success when none does.
pub open spec fn spec_pipeline_outcome(statuses: Seq<u8>) -> u8
    decreases statuses.len(),
{
    if statuses.len() == 0 {
        0
    } else if statuses[0] != 0 {
        statuses[0]
    } else {
        spec_pipeline_outcome(statuses.drop_first())
    }
}

/// Driven by the exit codes `statuses` of its steps, a pipeline runs its
/// steps in order, runs no step after one that fails, and finishes with the
/// exit code of the first step that fails, or with success.
///
/// Stated for the point where steps `0..i` have succeeded and step `i` has
/// just ended: the next move either runs step `i + 1` (only after a success)
/// or finishes with `spec_pipeline_outcome(statuses)`.
pub proof fn law_pipeline_stops_at_first_failure(statuses: Seq<u8>, i: nat)
    requires
        i < statuses.len() <= usize::MAX,
        forall|j: int| 0 <= j < i ==> statuses[j] == 0,
    ensures
        match spec_pipeline_after(statuses.len(), i, statuses[i as int]) {
            PipelineAction::RunStep(next) => next == i + 1 && statuses[i as int] == 0,
            PipelineAction::Finish(code) => code == spec_pipeline_outcome(statuses),
        },
    decreases i,
{
    if i > 0 {
        let rest = statuses.drop_first();
        assert forall|j: int| 0 <= j < i - 1 implies rest[j] == 0 by {
            assert(rest[j] == statuses[j + 1]);
        }
        law_pipeline_stops_at_first_failure(rest, (i - 1) as nat);
        assert(rest[i - 1] == statuses[i as int]);
        assert(statuses[0] == 0);
        assert(spec_pipeline_outcome(statuses) == spec_pipeline_outcome(rest));
    } else if statuses[0] == 0 {
        if statuses.len() == 1 {
            assert(statuses.drop_first().len() == 0);
            assert(spec_pipeline_outcome(statuses.drop_first()) == 0);
            assert(spec_pipeline_outcome(statuses) == 0);
        }
    }
}

/// A pipeline without steps succeeds at once; one with steps starts with the
/// first.
pub proof fn law_pipeline_start(statuses: Seq<u8>)
    ensures
        spec_pipeline_start(statuses.len()) == if statuses.len() == 0 {
            PipelineAction::Finish(spec_pipeline_outcome(statuses))
        } else {
            PipelineAction::RunStep(0)
        },
{
}

/// The command line that runs a step's script: `sh -lc <script>`.
pub open spec fn spec_shell_line(script: Seq<char>) -> Seq<Seq<char>> {
    seq!["sh"@, "-lc"@, script]
}

/// How one configured step is run.
#[derive(Debug, Clone, PartialEq, Eq)]
pub enum StepAction {
    /// Run `command` (program first) on the host, in the project directory.
    Host { command: Vec<String> },
    /// Run `command` in a container of `image`.
    Container { image: String, command: Vec<String> },
}

/// Builds `sh -lc <script>`.
fn shell_line(script: String) -> (r: Vec<String>)
    ensures
        r@.len() == 3,
        forall|i: int| 0 <= i < 3 ==> #[trigger] r@[i]@ == spec_shell_line(script@)[i],
{
    let mut r: Vec<String> = Vec::new();
    r.push(String::from_str("sh"));
    r.push(String::from_str("-lc"));
    r.push(script);
    r
}

/// Decides how a configured step runs: on the host when it says so, else in
/// a container of its image; a container step without an image is an error.
/// Either way the step's script runs as `sh -lc <script>`.
pub fn plan_step(step: Step) -> (r: Result<StepAction, NowError>)
    ensures
        step.host ==> (r matches Ok(StepAction::Host { command }) && command@.len() == 3
            && forall|i: int| 0 <= i < 3 ==> #[trigger] command@[i]@ == spec_shell_line(step.run@)[i]),
        !step.host ==> match step.image {
            Some(image) => r matches Ok(StepAction::Container { image: img, command })
                && img == image && command@.len() == 3
                && forall|i: int| 0 <= i < 3 ==> #[trigger] command@[i]@ == spec_shell_line(step.run@)[i],
            None => r == Err::<StepAction, NowError>(NowError::MissingStepImage),
        },
{
    let Step { image, run, host } = step;
    if host {
        return Ok(StepAction::Host { command: shell_line(run) });
    }
    match image {
        Some(image) => Ok(StepAction::Container { image, command: shell_line(run) }),
        None => Err(NowError::MissingStepImage),
    }
}

/// The line shown when a step starts.
pub fn running_message(step: &Step) -> (r: String)
    ensures
        r@ == "running "@ + step.run@,
{
    String::from_str("running ").concat(step.run.as_str())
}

/// The runner's exit code for a host process's exit status: the status
/// when there is one and it fits in a byte, the failure code otherwise
/// (a process ended by a signal has no status).
pub fn status_to_exit_code(code: Option<i32>) -> (r: u8)
    ensures
        match code {
            Some(c) => r == spec_code_to_exit(c as int),
            None => r == failure_code(),
        },
        match code {
            Some(c) => (0 <= c <= 255 ==> r as int == c) && (!(0 <= c <= 255) ==> r == 1),
            None => r == 1,
        },
{
    match code {
        Some(c) => if 0 <= c && c <= 255 {
            c as u8
        } else {
            1
        },
        None => 1,
    }
}

/// The interactive shell session that `now shell` opens: a shell in an
/// isolated container of `image`, removed when the session ends.
#[derive(Debug, Clone, PartialEq, Eq)]
pub struct ShellPlan {
    pub image: String,
}

/// What `now shell` does: a known toolchain selector opens a shell session
/// in a container of the image that the selector names; an unknown one is
/// refused.
pub fn shell_command(toolchain: &str) -> (r: Result<ShellPlan, NowError>)
    ensures
        match spec_image_for_toolchain(toolchain@) {
            Some(image) => r matches Ok(plan) && plan.image@ == image,
            None => r matches Err(NowError::UnknownToolchain { selector }) && selector@ == toolchain@,
        },
{
    match image_for_toolchain(toolchain) {
        Some(image) => Ok(ShellPlan { image }),
        None => Err(NowError::UnknownToolchain { selector: String::from_str(toolchain) }),
    }
}

/// The starter `.now.yaml`: one `test` command that runs `npm test` in
/// `node:20-alpine`.
pub open spec fn spec_init_template() -> Seq<char> {
    "commands:\n  test:\n    image: node:20-alpine\n    run: npm test\n"@
}

/// What `now init` writes: the starter configuration, unless a
/// `.now.yaml` exists already.
pub fn init_command(config_exists: bool) -> (r: Result<String, NowError>)
    ensures
        config_exists ==> r == Err::<String, NowError>(NowError::ConfigExists),
        !config_exists ==> (r matches Ok(text) && text@ == spec_init_template()),
{
    if config_exists {
        return Err(NowError::ConfigExists);
    }
    Ok(String::from_str("commands:\n  test:\n    image: node:20-alpine\n    run: npm test\n"))
}

} // verus!
