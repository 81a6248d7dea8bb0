//! Errors of Docker operations.
use vstd::prelude::*;
use std::time::Duration;

verus! {

/// Error of a Docker operation.
#[derive(Debug, PartialEq, Eq)]
pub enum DockerError {
    /// Error of the Docker client, with its message
    Client { message: String },
    /// Container not found
    ContainerNotFound { id: String },
    /// Image not found
    ImageNotFound { name: String },
    /// Build failed
    BuildFailed { reason: String },
    /// Pull failed
    PullFailed { image: String, reason: String },
    /// Container execution failed
    ExecutionFailed { reason: String },
    /// Invalid configuration
    InvalidConfig { reason: String },
    /// Volume mount error
    VolumeError { path: String, reason: String },
    /// Network error
    NetworkError { reason: String },
    /// Timeout error
    Timeout { duration: Duration },
    /// Stream error
    StreamError { reason: String },
}

/// The text `Duration`'s `Debug` writes for `d` (such as `30s` or `1.5ms`);
/// it depends on the duration alone.
pub uninterp spec fn duration_debug_text(d: Duration) -> Seq<char>;

/// How a Docker error reads.
pub open spec fn docker_error_text(e: DockerError) -> Seq<char> {
    match e {
        DockerError::Client { message } => "Docker client error: "@ + message@,
        DockerError::ContainerNotFound { id } => "Container not found: "@ + id@,
        DockerError::ImageNotFound { name } => "Image not found: "@ + name@,
        DockerError::BuildFailed { reason } => "Docker build failed: "@ + reason@,
        DockerError::PullFailed { image, reason } => "Docker pull failed for image "@ + image@ + ": "@
            + reason@,
        DockerError::ExecutionFailed { reason } => "Container execution failed: "@ + reason@,
        DockerError::InvalidConfig { reason } => "Invalid Docker configuration: "@ + reason@,
        DockerError::VolumeError { path, reason } => "Volume mount error: "@ + path@ + " - "@ + reason@,
        DockerError::NetworkError { reason } => "Docker network error: "@ + reason@,
        DockerError::Timeout { duration } => "Docker operation timed out after "@ + duration_debug_text(
            duration,
        ),
        DockerError::StreamError { reason } => "Docker stream error: "@ + reason@,
    }
}

/// `format!("{:?}", d)`: `Duration`'s `Debug` text, a function of the
/// duration alone (named, not spelled out).
#[verifier::external_body]
pub(crate) fn duration_debug(d: &Duration) -> (r: String)
    ensures
        r@ == duration_debug_text(*d),
{
    format!("{:?}", d)
}

impl DockerError {
    /// The message of the error.
    pub fn to_text(&self) -> (r: String)
        ensures
            r@ == docker_error_text(*self),
    {
        let mut r = String::new();
        match self {
            DockerError::Client { message } => {
                r.append("Docker client error: ");
                r.append(message.as_str());
            },
            DockerError::ContainerNotFound { id } => {
                r.append("Container not found: ");
                r.append(id.as_str());
            },
            DockerError::ImageNotFound { name } => {
                r.append("Image not found: ");
                r.append(name.as_str());
            },
            DockerError::BuildFailed { reason } => {
                r.append("Docker build failed: ");
                r.append(reason.as_str());
            },
            DockerError::PullFailed { image, reason } => {
                r.append("Docker pull failed for image ");
                r.append(image.as_str());
                r.append(": ");
                r.append(reason.as_str());
            },
            DockerError::ExecutionFailed { reason } => {
                r.append("Container execution failed: ");
                r.append(reason.as_str());
            },
            DockerError::InvalidConfig { reason } => {
                r.append("Invalid Docker configuration: ");
                r.append(reason.as_str());
            },
            DockerError::VolumeError { path, reason } => {
                r.append("Volume mount error: ");
                r.append(path.as_str());
                r.append(" - ");
                r.append(reason.as_str());
            },
            DockerError::NetworkError { reason } => {
                r.append("Docker network error: ");
                r.append(reason.as_str());
            },
            DockerError::Timeout { duration } => {
                r.append("Docker operation timed out after ");
                let d = duration_debug(duration);
                r.append(d.as_str());
            },
            DockerError::StreamError { reason } => {
                r.append("Docker stream error: ");
                r.append(reason.as_str());
            },
        }
        r
    }
}

} // verus!
