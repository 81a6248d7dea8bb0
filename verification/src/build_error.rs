//! Errors of build orchestration.
use vstd::prelude::*;
use crate::docker_error::{docker_error_text, DockerError};
use crate::error::{error_text, Error};
use crate::text::{decimal, owned, push_decimal};

verus! {

/// Error of a build operation.
#[derive(Debug, PartialEq, Eq)]
pub enum BuildError {
    /// Environment preparation failed
    EnvironmentPreparation { reason: String },
    /// Container creation failed
    ContainerCreation { reason: String },
    /// Build execution failed
    BuildExecution { package: String, reason: String },
    /// Artifact collection failed
    ArtifactCollection { reason: String },
    /// Build timeout
    BuildTimeout { duration_secs: u64 },
    /// Missing build dependency
    MissingDependency { dependency: String },
    /// Invalid build configuration
    InvalidConfiguration { reason: String },
    /// Progress monitoring error
    ProgressMonitoring { reason: String },
    /// Core library error
    Core(Error),
    /// Docker error
    Docker(DockerError),
    /// Configuration error
    Config(String),
    /// I/O error, with its message
    Io(String),
    /// Serialization error, with its message
    Serialization(String),
    /// An error of another kind, with the context it arose in
    WithContext { context: String, source: String },
    /// A failure that may go away when the operation is tried again
    Transient { message: String },
    /// A failure that trying again will not mend
    Permanent { message: String },
    /// The operation was cancelled
    Cancelled,
    /// A shutdown is under way
    ShutdownInProgress,
    /// An operation failed on every attempt allowed
    MaxRetriesExceeded { operation: String, attempts: u32 },
    /// Recovering from a failure failed
    RecoveryFailed { reason: String },
}

/// How a build error reads.
pub open spec fn build_error_text(e: BuildError) -> Seq<char> {
    match e {
        BuildError::EnvironmentPreparation { reason } => "Failed to prepare build environment: "@
            + reason@,
        BuildError::ContainerCreation { reason } => "Failed to create container: "@ + reason@,
        BuildError::BuildExecution { package, reason } => "Build execution failed for package "@
            + package@ + ": "@ + reason@,
        BuildError::ArtifactCollection { reason } => "Failed to collect artifacts: "@ + reason@,
        BuildError::BuildTimeout { duration_secs } => "Build timed out after "@ + decimal(
            duration_secs as nat,
        ) + " seconds"@,
        BuildError::MissingDependency { dependency } => "Missing build dependency: "@ + dependency@,
        BuildError::InvalidConfiguration { reason } => "Invalid build configuration: "@ + reason@,
        BuildError::ProgressMonitoring { reason } => "Progress monitoring error: "@ + reason@,
        BuildError::Core(c) => "Core error: "@ + error_text(c),
        BuildError::Docker(d) => "Docker error: "@ + docker_error_text(d),
        BuildError::Config(m) => "Configuration error: "@ + m@,
        BuildError::Io(m) => "I/O error: "@ + m@,
        BuildError::Serialization(m) => "Serialization error: "@ + m@,
        BuildError::WithContext { context, source } => context@ + ": "@ + source@,
        BuildError::Transient { message } => "Transient error: "@ + message@,
        BuildError::Permanent { message } => "Permanent error: "@ + message@,
        BuildError::Cancelled => "Operation cancelled"@,
        BuildError::ShutdownInProgress => "Shutdown in progress"@,
        BuildError::MaxRetriesExceeded { operation, attempts } => "Maximum retry attempts ("@
            + decimal(attempts as nat) + ") exceeded for operation '"@ + operation@ + "'"@,
        BuildError::RecoveryFailed { reason } => "Recovery failed: "@ + reason@,
    }
}

/// `t` is the message of the error `e`.
pub open spec fn describes(e: BuildError, t: Seq<char>) -> bool {
    t == build_error_text(e)
}

/// Whether trying the failed operation again may succeed: transient
/// failures, container creation, timeouts, Docker and I/O failures.
pub open spec fn retryable(e: BuildError) -> bool {
    e is Transient || e is ContainerCreation || e is BuildTimeout || e is Docker || e is Io
}

impl BuildError {
    /// A failure that may go away on another attempt.
    pub fn transient(message: &str) -> (r: Self)
        ensures
            r matches BuildError::Transient { message: m } && m@ == message@,
    {
        BuildError::Transient { message: owned(message) }
    }

    /// A failure that another attempt will not mend.
    pub fn permanent(message: &str) -> (r: Self)
        ensures
            r matches BuildError::Permanent { message: m } && m@ == message@,
    {
        BuildError::Permanent { message: owned(message) }
    }

    /// The error of an operation that failed on each of its `attempts` attempts.
    pub fn max_retries_exceeded(operation: &str, attempts: u32) -> (r: Self)
        ensures
            r matches BuildError::MaxRetriesExceeded { operation: o, attempts: a } && o@
                == operation@ && a == attempts,
    {
        BuildError::MaxRetriesExceeded { operation: owned(operation), attempts }
    }

    /// An error that records the context it arose in, with the source's message.
    pub fn context(context: &str, source: &str) -> (r: Self)
        ensures
            r matches BuildError::WithContext { context: c, source: s } && c@ == context@ && s@
                == source@,
    {
        BuildError::WithContext { context: owned(context), source: owned(source) }
    }

    /// A failure of recovery.
    pub fn recovery_failed(reason: &str) -> (r: Self)
        ensures
            r matches BuildError::RecoveryFailed { reason: m } && m@ == reason@,
    {
        BuildError::RecoveryFailed { reason: owned(reason) }
    }

    /// A configuration error.
    pub fn config(msg: &str) -> (r: Self)
        ensures
            r matches BuildError::Config(m) && m@ == msg@,
    {
        BuildError::Config(owned(msg))
    }

    /// An environment preparation error.
    pub fn environment(reason: &str) -> (r: Self)
        ensures
            r matches BuildError::EnvironmentPreparation { reason: m } && m@ == reason@,
    {
        BuildError::EnvironmentPreparation { reason: owned(reason) }
    }

    /// A build execution error.
    pub fn build_failed(package: &str, reason: &str) -> (r: Self)
        ensures
            r matches BuildError::BuildExecution { package: p, reason: m } && p@ == package@ && m@
                == reason@,
    {
        BuildError::BuildExecution { package: owned(package), reason: owned(reason) }
    }

    /// Whether trying the failed operation again may succeed.
    pub fn is_retryable(&self) -> (r: bool)
        ensures
            r == retryable(*self),
    {
        match self {
            BuildError::Transient { .. } => true,
            BuildError::ContainerCreation { .. } => true,
            BuildError::BuildTimeout { .. } => true,
            BuildError::Docker(_) => true,
            BuildError::Io(_) => true,
            _ => false,
        }
    }

    /// The message of the error.
    pub fn to_text(&self) -> (r: String)
        ensures
            describes(*self, r@),
    {
        let mut r = String::new();
        match self {
            BuildError::EnvironmentPreparation { reason } => {
                r.append("Failed to prepare build environment: ");
                r.append(reason.as_str());
            },
            BuildError::ContainerCreation { reason } => {
                r.append("Failed to create container: ");
                r.append(reason.as_str());
            },
            BuildError::BuildExecution { package, reason } => {
                r.append("Build execution failed for package ");
                r.append(package.as_str());
                r.append(": ");
                r.append(reason.as_str());
            },
            BuildError::ArtifactCollection { reason } => {
                r.append("Failed to collect artifacts: ");
                r.append(reason.as_str());
            },
            BuildError::BuildTimeout { duration_secs } => {
                r.append("Build timed out after ");
                push_decimal(&mut r, *duration_secs);
                r.append(" seconds");
            },
            BuildError::MissingDependency { dependency } => {
                r.append("Missing build dependency: ");
                r.append(dependency.as_str());
            },
            BuildError::InvalidConfiguration { reason } => {
                r.append("Invalid build configuration: ");
                r.append(reason.as_str());
            },
            BuildError::ProgressMonitoring { reason } => {
                r.append("Progress monitoring error: ");
                r.append(reason.as_str());
            },
            BuildError::Core(c) => {
                r.append("Core error: ");
                r.append(c.to_text().as_str());
            },
            BuildError::Docker(d) => {
                r.append("Docker error: ");
                let t = d.to_text();
                r.append(t.as_str());
            },
            BuildError::Config(m) => {
                r.append("Configuration error: ");
                r.append(m.as_str());
            },
            BuildError::Io(m) => {
                r.append("I/O error: ");
                r.append(m.as_str());
            },
            BuildError::Serialization(m) => {
                r.append("Serialization error: ");
                r.append(m.as_str());
            },
            BuildError::WithContext { context, source } => {
                r.append(context.as_str());
                r.append(": ");
                r.append(source.as_str());
            },
            BuildError::Transient { message } => {
                r.append("Transient error: ");
                r.append(message.as_str());
            },
            BuildError::Permanent { message } => {
                r.append("Permanent error: ");
                r.append(message.as_str());
            },
            BuildError::Cancelled => {
                r.append("Operation cancelled");
            },
            BuildError::ShutdownInProgress => {
                r.append("Shutdown in progress");
            },
            BuildError::MaxRetriesExceeded { operation, attempts } => {
                r.append("Maximum retry attempts (");
                push_decimal(&mut r, *attempts as u64);
                r.append(") exceeded for operation '");
                r.append(operation.as_str());
                r.append("'");
            },
            BuildError::RecoveryFailed { reason } => {
                r.append("Recovery failed: ");
                r.append(reason.as_str());
            },
        }
        r
    }
}

} // verus!
