//! What the build executor decides: the container it starts, what a
//! finished or timed-out container means, and what the build log says.
use vstd::prelude::*;
use std::path::PathBuf;
use std::time::Duration;
use crate::build_error::BuildError;
use crate::context::{BuildContext, BuildStats, PackageBuildResult};
use crate::docker_error::DockerError;
use crate::docker_types::{ContainerSpec, LogOutput, VolumeMount};
use crate::text::{
    chars_of, contains_str, contains_sub, decimal, owned, push_decimal, split, split_str,
    string_of, trim, trim_chars, char_views,
};

verus! {

/// Settings of a build run.
#[derive(Debug, Clone, PartialEq, Eq)]
pub struct ExecutorConfig {
    /// Container image to use
    pub container_image: String,
    /// Workspace path on host
    pub workspace_path: PathBuf,
    /// Output directory on host
    pub output_dir: PathBuf,
    /// Number of parallel jobs
    pub parallel_jobs: usize,
    /// Build timeout in seconds
    pub timeout_seconds: Option<u64>,
}

/// The text of a list of strings.
pub open spec fn pair_texts(v: Seq<(String, String)>) -> Seq<(Seq<char>, Seq<char>)> {
    v.map_values(|p: (String, String)| (p.0@, p.1@))
}

/// The container that runs the build: the workspace mounted at
/// `/workspace` and the output directory at `/output`, both writable;
/// `PARALLEL_JOBS` and `BUILD_OUTPUT_DIR` set; `/entrypoint.sh build` run in
/// `/workspace`.
pub fn container_spec(config: &ExecutorConfig) -> (r: ContainerSpec)
    ensures
        r.image@ == config.container_image@,
        crate::text::views(r.command@) == seq!["/entrypoint.sh"@, "build"@],
        pair_texts(r.environment@) == seq![
            ("PARALLEL_JOBS"@, decimal(config.parallel_jobs as nat)),
            ("BUILD_OUTPUT_DIR"@, "/output"@),
        ],
        r.volumes@.len() == 2,
        r.volumes@[0] == (VolumeMount {
            host_path: config.workspace_path,
            container_path: r.volumes@[0].container_path,
            read_only: false,
        }),
        r.volumes@[0].container_path@ == "/workspace"@,
        r.volumes@[1] == (VolumeMount {
            host_path: config.output_dir,
            container_path: r.volumes@[1].container_path,
            read_only: false,
        }),
        r.volumes@[1].container_path@ == "/output"@,
        r.working_dir matches Some(w) && w@ == "/workspace"@,
        r.user is None,
{
    let mut volumes: Vec<VolumeMount> = Vec::new();
    volumes.push(
        VolumeMount {
            host_path: config.workspace_path.clone(),
            container_path: owned("/workspace"),
            read_only: false,
        },
    );
    volumes.push(
        VolumeMount {
            host_path: config.output_dir.clone(),
            container_path: owned("/output"),
            read_only: false,
        },
    );
    let mut jobs = String::new();
    push_decimal(&mut jobs, config.parallel_jobs as u64);
    let mut environment: Vec<(String, String)> = Vec::new();
    environment.push((owned("PARALLEL_JOBS"), jobs));
    environment.push((owned("BUILD_OUTPUT_DIR"), owned("/output")));
    let mut command: Vec<String> = Vec::new();
    command.push(owned("/entrypoint.sh"));
    command.push(owned("build"));
    let r = ContainerSpec {
        image: config.container_image.clone(),
        command,
        environment,
        volumes,
        working_dir: Some(owned("/workspace")),
        user: None,
    };
    assert(crate::text::views(r.command@) =~= seq!["/entrypoint.sh"@, "build"@]);
    assert(pair_texts(r.environment@) =~= seq![
        ("PARALLEL_JOBS"@, decimal(config.parallel_jobs as nat)),
        ("BUILD_OUTPUT_DIR"@, "/output"@),
    ]);
    r
}

/// How long a build may run, in seconds: the configured timeout, else an hour.
pub fn build_timeout_secs(config: &ExecutorConfig) -> (r: u64)
    ensures
        r == match config.timeout_seconds {
            Some(t) => t,
            None => 3600,
        },
{
    match config.timeout_seconds {
        Some(t) => t,
        None => 3600,
    }
}

/// How waiting for the build container ended.
#[derive(Debug, PartialEq, Eq)]
pub enum WaitOutcome {
    /// The container exited with this code
    Exited(i64),
    /// Waiting failed
    Failed(DockerError),
    /// The timeout ran out first
    TimedOut,
}

/// The decimal text of a signed number.
pub open spec fn signed_decimal(n: int) -> Seq<char> {
    if n < 0 {
        "-"@ + decimal((-n) as nat)
    } else {
        decimal(n as nat)
    }
}

/// Appends the decimal text of `n`.
fn push_signed(s: &mut String, n: i64)
    ensures
        final(s)@ == old(s)@ + signed_decimal(n as int),
{
    if n < 0 {
        s.append("-");
        let m: u64 = if n == i64::MIN {
            9223372036854775808u64
        } else {
            (-n) as u64
        };
        push_decimal(s, m);
    } else {
        push_decimal(s, n as u64);
    }
}

/// The outcome of a build whose container wait ended as `outcome`, the
/// timeout being `timeout_secs` seconds: exit code 0 is success, another
/// code a build failure of the workspace, a failed wait a Docker error, and
/// a timeout a build timeout.
pub fn build_outcome(timeout_secs: u64, outcome: WaitOutcome) -> (r: Result<(), BuildError>)
    ensures
        match outcome {
            WaitOutcome::Exited(code) => if code == 0 {
                r is Ok
            } else {
                r matches Err(BuildError::BuildExecution { package, reason }) && package@
                    == "workspace"@ && reason@ == "Container exited with code "@ + signed_decimal(code as int)
            },
            WaitOutcome::Failed(e) => r == Err::<(), BuildError>(BuildError::Docker(e)),
            WaitOutcome::TimedOut => r == Err::<(), BuildError>(BuildError::BuildTimeout { duration_secs: timeout_secs }),
        },
{
    match outcome {
        WaitOutcome::Exited(code) => {
            if code == 0 {
                Ok(())
            } else {
                let mut reason = owned("Container exited with code ");
                push_signed(&mut reason, code);
                Err(BuildError::BuildExecution { package: owned("workspace"), reason })
            }
        },
        WaitOutcome::Failed(e) => Err(BuildError::Docker(e)),
        WaitOutcome::TimedOut => Err(BuildError::BuildTimeout { duration_secs: timeout_secs }),
    }
}

/// The package that a line of build output reports as built: the text
/// between the first `Package` and the following `built`, trimmed, on a
/// line that says `built successfully` and does not announce a build.
pub open spec fn built_package_name(line: Seq<char>) -> Option<Seq<char>> {
    if contains_sub(line, "Building package:"@) {
        None
    } else if contains_sub(line, "Package"@) && contains_sub(line, "built successfully"@) {
        let parts = split(line, "Package"@);
        if parts.len() >= 2 && split(parts[1], "built"@).len() > 0 {
            Some(trim(split(parts[1], "built"@)[0]))
        } else {
            None
        }
    } else {
        None
    }
}

/// The `Duration` that `Duration::from_secs` makes of `secs` seconds.
pub uninterp spec fn duration_of_secs(secs: u64) -> Duration;

/// `std::time::Duration::from_secs`: a span of `secs` seconds.
#[verifier::external_body]
fn from_secs(secs: u64) -> (r: Duration)
    ensures
        r == duration_of_secs(secs),
{
    Duration::from_secs(secs)
}

/// Reads a line of build output; a line reporting a package as built
/// records a successful result for it.
pub fn parse_progress_line(line: &str, context: &mut BuildContext)
    requires
        built_package_name(line@) is Some ==> old(context).stats_of().built_packages < usize::MAX,
    ensures
        match built_package_name(line@) {
            Some(name) => {
                let res = final(context).results_of()[name];
                &&& final(context).results_of() == old(context).results_of().insert(name, res)
                &&& res.name@ == name && res.success && res.error is None && res.artifacts@.len() == 0
                &&& res.duration == duration_of_secs(0)
                &&& final(context).stats_of() == (BuildStats {
                    built_packages: (old(context).stats_of().built_packages + 1) as usize,
                    ..old(context).stats_of()
                })
            },
            None => final(context).results_of() == old(context).results_of()
                && final(context).stats_of() == old(context).stats_of(),
        },
        final(context).state_of() == old(context).state_of(),
        final(context).packages_of() == old(context).packages_of(),
        final(context).container_of() == old(context).container_of(),
{
    let c = chars_of(line);
    proof {
        reveal_strlit("Package");
        reveal_strlit("built");
    }
    if contains_str(&c, "Building package:") {
        return;
    }
    if !(contains_str(&c, "Package") && contains_str(&c, "built successfully")) {
        return;
    }
    let parts = split_str(&c, "Package");
    if parts.len() < 2 {
        return;
    }
    assert(char_views(parts@)[1] == parts@[1]@);
    let pieces = split_str(&parts[1], "built");
    if pieces.len() == 0 {
        return;
    }
    assert(char_views(pieces@)[0] == pieces@[0]@);
    let name = string_of(&trim_chars(&pieces[0]));
    assert(built_package_name(line@) == Some(name@));
    let result = PackageBuildResult {
        name,
        success: true,
        error: None,
        duration: from_secs(0),
        artifacts: Vec::new(),
    };
    context.add_result(result);
}

/// A line of the build log: standard output as it is, standard error
/// marked `ERROR: `.
pub fn log_line_text(out: &LogOutput) -> (r: String)
    ensures
        r@ == match out {
            LogOutput::Stdout(l) => l@,
            LogOutput::Stderr(l) => "ERROR: "@ + l@,
        },
{
    match out {
        LogOutput::Stdout(l) => l.clone(),
        LogOutput::Stderr(l) => {
            let mut r = owned("ERROR: ");
            r.append(l.as_str());
            r
        },
    }
}

} // verus!
