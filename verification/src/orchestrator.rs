//! The decisions of build orchestration: when a phase may start, the state
//! a build ends in, and how a failed phase is reported.
use vstd::prelude::*;
use crate::build_error::{build_error_text, describes, BuildError};
use crate::config::{Config, DockerConfig};
use crate::context::{BuildContext, BuildState};
use crate::error::Error;
use crate::executor::ExecutorConfig;
use crate::text::owned;

verus! {

broadcast use vstd::string::group_string_axioms;

/// The `PathBuf` that `std::path::PathBuf::from` makes of the text `text`; it
/// depends on the text alone.
pub uninterp spec fn path_buf_of(text: Seq<char>) -> std::path::PathBuf;

/// `std::path::PathBuf::from` on the text `s`.
#[verifier::external_body]
fn path_buf_from(s: &str) -> (r: std::path::PathBuf)
    ensures
        r == path_buf_of(s@),
{
    std::path::PathBuf::from(s)
}

/// The settings the build executor runs with: the configured image,
/// workspace, output directory and job count, and no timeout of its own.
pub fn executor_config(config: &Config) -> (r: ExecutorConfig)
    ensures
        r.workspace_path == path_buf_of(config.colcon_repo@),
        r.output_dir == path_buf_of(config.output_dir@),
        r.container_image@ == match config.docker {
            DockerConfig::Image { image } => image@,
            DockerConfig::Dockerfile { .. } => "colcon-deb-builder:latest"@,
        },
        r.parallel_jobs == config.parallel_jobs,
        r.timeout_seconds is None,
{
    ExecutorConfig {
        container_image: config.docker_image(),
        workspace_path: path_buf_from(config.colcon_repo.as_str()),
        output_dir: path_buf_from(config.output_dir.as_str()),
        parallel_jobs: config.parallel_jobs,
        timeout_seconds: None,
    }
}

/// Starts a phase in state `state`: refused while a shutdown is requested,
/// the context left as it was.
pub fn begin_phase(context: &mut BuildContext, shutdown_requested: bool, state: BuildState) -> (r: Result<(), BuildError>)
    ensures
        shutdown_requested ==> r == Err::<(), _>(BuildError::ShutdownInProgress) && *final(context) == *old(context),
        !shutdown_requested ==> r is Ok && final(context).state_of() == state
            && final(context).config_of() == old(context).config_of()
            && final(context).results_of() == old(context).results_of()
            && final(context).packages_of() == old(context).packages_of(),
{
    if shutdown_requested {
        return Err(BuildError::ShutdownInProgress);
    }
    context.set_state(state);
    Ok(())
}

/// Refuses to go on while a shutdown is requested.
pub fn check_shutdown(shutdown_requested: bool) -> (r: Result<(), BuildError>)
    ensures
        shutdown_requested ==> r == Err::<(), _>(BuildError::ShutdownInProgress),
        !shutdown_requested ==> r is Ok,
{
    if shutdown_requested {
        Err(BuildError::ShutdownInProgress)
    } else {
        Ok(())
    }
}

/// Ends the build phase with the executor's outcome: `Completed` when it
/// succeeded, `Failed` otherwise; the outcome is handed on.
pub fn finish_build(context: &mut BuildContext, outcome: Result<(), BuildError>) -> (r: Result<(), BuildError>)
    ensures
        r == outcome,
        final(context).state_of() == (if outcome is Ok {
            BuildState::Completed
        } else {
            BuildState::Failed
        }),
        final(context).config_of() == old(context).config_of(),
        final(context).results_of() == old(context).results_of(),
        final(context).packages_of() == old(context).packages_of(),
{
    if outcome.is_ok() {
        context.set_state(BuildState::Completed);
    } else {
        context.set_state(BuildState::Failed);
    }
    outcome
}

/// The error of a workspace that does not exist.
pub fn workspace_missing(colcon_repo: &str) -> (r: BuildError)
    ensures
        r matches BuildError::EnvironmentPreparation { reason } && reason@
            == "Workspace path does not exist: "@ + colcon_repo@,
{
    let mut m = owned("Workspace path does not exist: ");
    m.append(colcon_repo);
    BuildError::environment(m.as_str())
}

/// The error of a phase that needs the executor before it was created.
pub fn executor_not_initialized() -> (r: BuildError)
    ensures
        r matches BuildError::InvalidConfiguration { reason } && reason@
            == "Build executor not initialized"@,
{
    BuildError::InvalidConfiguration { reason: owned("Build executor not initialized") }
}

/// A failed phase as the core library reports it: the workspace's build
/// failed, with the phase's message as the reason.
pub fn workspace_failure(e: &BuildError) -> (r: Error)
    ensures
        r matches Error::BuildFailed { package, reason } && package@ == "workspace"@ && describes(
            *e,
            reason@,
        ),
{
    Error::BuildFailed { package: owned("workspace"), reason: e.to_text() }
}

} // verus!
