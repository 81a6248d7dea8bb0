//! Data handed to and received from the Docker engine.
use vstd::prelude::*;
use std::collections::HashMap;
use std::path::PathBuf;
use std::time::Duration;

verus! {

/// A container to run.
#[derive(Debug, PartialEq, Eq)]
pub struct ContainerSpec {
    /// Docker image to use
    pub image: String,
    /// Command to execute
    pub command: Vec<String>,
    /// Environment variables, as (name, value) pairs
    pub environment: Vec<(String, String)>,
    /// Volume mounts
    pub volumes: Vec<VolumeMount>,
    /// Working directory
    pub working_dir: Option<String>,
    /// User to run as
    pub user: Option<String>,
}

/// A host directory mounted into a container.
#[derive(Debug, PartialEq, Eq)]
pub struct VolumeMount {
    /// Host path
    pub host_path: PathBuf,
    /// Container path
    pub container_path: String,
    /// Read-only mount
    pub read_only: bool,
}

/// What a Docker image is built from.
#[derive(Debug, Clone, PartialEq, Eq)]
pub struct BuildContext {
    /// Dockerfile content
    pub dockerfile: String,
    /// Build arguments
    pub build_args: HashMap<String, String>,
    /// Labels to apply
    pub labels: HashMap<String, String>,
    /// Target stage (for multi-stage builds)
    pub target: Option<String>,
}

/// State of a container.
#[derive(Debug, Clone, Copy, PartialEq, Eq, Structural)]
pub enum ContainerState {
    /// Container is being created
    Creating,
    /// Container is running
    Running,
    /// Container has exited with this code
    Exited(i32),
    /// Container is paused
    Paused,
    /// Container is being removed
    Removing,
    /// Container is dead
    Dead,
}

/// What is known of a container.
#[derive(Debug, Clone, PartialEq, Eq)]
pub struct ContainerInfo {
    /// Container ID
    pub id: String,
    /// Container name
    pub name: String,
    /// Image used
    pub image: String,
    /// Current state
    pub state: ContainerState,
    /// Creation time
    pub created: String,
    /// Labels
    pub labels: HashMap<String, String>,
}

/// What is known of an image.
#[derive(Debug, Clone, PartialEq, Eq)]
pub struct ImageInfo {
    /// Image ID
    pub id: String,
    /// Repository tags
    pub tags: Vec<String>,
    /// Image size in bytes
    pub size: i64,
    /// Creation time
    pub created: String,
    /// Labels
    pub labels: HashMap<String, String>,
}

/// Docker registry credentials.
#[derive(Debug, Clone, PartialEq, Eq)]
pub struct RegistryAuth {
    /// Username
    pub username: String,
    /// Password
    pub password: String,
    /// Registry server URL
    pub server_address: Option<String>,
}

/// Resource limits of a container.
#[derive(Debug, Clone, Copy, PartialEq, Eq, Structural)]
pub struct ResourceLimits {
    /// Memory limit in bytes
    pub memory: Option<i64>,
    /// CPU quota (100000 = 1 CPU)
    pub cpu_quota: Option<i64>,
    /// CPU shares (relative weight)
    pub cpu_shares: Option<i64>,
}

/// Health check of a container.
#[derive(Debug, Clone, PartialEq, Eq)]
pub struct HealthCheck {
    /// Command to run
    pub test: Vec<String>,
    /// Interval between checks
    pub interval: Option<u64>,
    /// Timeout for each check
    pub timeout: Option<u64>,
    /// Number of retries
    pub retries: Option<u32>,
    /// Start period
    pub start_period: Option<u64>,
}

/// Network mode of a container.
#[derive(Debug, Clone, PartialEq, Eq)]
pub enum NetworkMode {
    /// Default bridge network
    Bridge,
    /// Host network
    Host,
    /// No networking
    Isolated,
    /// Custom network
    Custom(String),
}

impl Default for NetworkMode {
    fn default() -> (r: Self)
        ensures
            r == NetworkMode::Bridge,
    {
        NetworkMode::Bridge
    }
}

/// Output of a command run in a container.
#[derive(Debug, Clone, PartialEq, Eq)]
pub struct ContainerOutput {
    /// Exit code
    pub exit_code: i64,
    /// Standard output
    pub stdout: Vec<u8>,
    /// Standard error
    pub stderr: Vec<u8>,
}

/// A line of container output.
#[derive(Debug, Clone, PartialEq, Eq)]
pub enum LogOutput {
    /// Standard output line
    Stdout(String),
    /// Standard error line
    Stderr(String),
}

/// Settings of the Docker connection.
#[derive(Debug, PartialEq, Eq)]
pub struct DockerConfig {
    /// Socket path (None for default)
    pub socket_path: Option<String>,
    /// Operation timeout
    pub timeout: Duration,
    /// Maximum concurrent image pulls
    pub max_concurrent_pulls: usize,
}

} // verus!
