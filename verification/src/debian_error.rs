//! Errors of Debian package management.
use vstd::prelude::*;
use crate::error::{error_text, Error};
use crate::text::owned;

verus! {

/// Debian-specific errors.
#[derive(Debug, Clone, PartialEq, Eq)]
pub enum DebianError {
    /// Invalid package name
    InvalidPackageName { name: String },
    /// Missing required file in debian directory
    MissingRequiredFile { package: String, file: String },
    /// Invalid debian control file
    InvalidControlFile { package: String, reason: String },
    /// Invalid version format
    InvalidVersion { version: String, reason: String },
    /// Dependency mapping failed
    DependencyMappingFailed { dependency: String, reason: String },
    /// bloom-generate execution failed
    BloomGenerateFailed { package: String, reason: String },
    /// Repository generation failed
    RepositoryGenerationFailed { reason: String },
    /// File system error, with its message
    Io { message: String },
    /// JSON serialization error, with its message
    Json { message: String },
    /// Core library error
    Core(Error),
}

/// Model of a `DebianError`.
#[verifier::ext_equal]
pub enum DebianErrorView {
    InvalidPackageName { name: Seq<char> },
    MissingRequiredFile { package: Seq<char>, file: Seq<char> },
    InvalidControlFile { package: Seq<char>, reason: Seq<char> },
    InvalidVersion { version: Seq<char>, reason: Seq<char> },
    DependencyMappingFailed { dependency: Seq<char>, reason: Seq<char> },
    BloomGenerateFailed { package: Seq<char>, reason: Seq<char> },
    RepositoryGenerationFailed { reason: Seq<char> },
    Io { message: Seq<char> },
    Json { message: Seq<char> },
    Core(Error),
}

impl View for DebianError {
    type V = DebianErrorView;

    open spec fn view(&self) -> DebianErrorView {
        match self {
            DebianError::InvalidPackageName { name } => DebianErrorView::InvalidPackageName {
                name: name@,
            },
            DebianError::MissingRequiredFile { package, file } =>
                DebianErrorView::MissingRequiredFile { package: package@, file: file@ },
            DebianError::InvalidControlFile { package, reason } =>
                DebianErrorView::InvalidControlFile { package: package@, reason: reason@ },
            DebianError::InvalidVersion { version, reason } => DebianErrorView::InvalidVersion {
                version: version@,
                reason: reason@,
            },
            DebianError::DependencyMappingFailed { dependency, reason } =>
                DebianErrorView::DependencyMappingFailed {
                dependency: dependency@,
                reason: reason@,
            },
            DebianError::BloomGenerateFailed { package, reason } =>
                DebianErrorView::BloomGenerateFailed { package: package@, reason: reason@ },
            DebianError::RepositoryGenerationFailed { reason } =>
                DebianErrorView::RepositoryGenerationFailed { reason: reason@ },
            DebianError::Io { message } => DebianErrorView::Io { message: message@ },
            DebianError::Json { message } => DebianErrorView::Json { message: message@ },
            DebianError::Core(e) => DebianErrorView::Core(*e),
        }
    }
}

/// How a Debian error reads.
pub open spec fn debian_error_text(e: DebianErrorView) -> Seq<char> {
    match e {
        DebianErrorView::InvalidPackageName { name } => "Invalid package name: "@ + name,
        DebianErrorView::MissingRequiredFile { package, file } => "Missing required file: "@ + file
            + " in debian directory for package "@ + package,
        DebianErrorView::InvalidControlFile { package, reason } =>
            "Invalid debian control file for package "@ + package + ": "@ + reason,
        DebianErrorView::InvalidVersion { version, reason } => "Invalid version format: "@ + version
            + " - "@ + reason,
        DebianErrorView::DependencyMappingFailed { dependency, reason } =>
            "Failed to map dependency "@ + dependency + ": "@ + reason,
        DebianErrorView::BloomGenerateFailed { package, reason } => "bloom-generate failed for package "@
            + package + ": "@ + reason,
        DebianErrorView::RepositoryGenerationFailed { reason } => "Repository generation failed: "@
            + reason,
        DebianErrorView::Io { message } => "File system error: "@ + message,
        DebianErrorView::Json { message } => "JSON error: "@ + message,
        DebianErrorView::Core(e) => "Core error: "@ + error_text(e),
    }
}

impl DebianError {
    /// An invalid package name error.
    pub fn invalid_package_name(name: &str) -> (r: Self)
        ensures
            r matches DebianError::InvalidPackageName { name: n } && n@ == name@,
    {
        DebianError::InvalidPackageName { name: owned(name) }
    }

    /// A missing required file error.
    pub fn missing_required_file(package: &str, file: &str) -> (r: Self)
        ensures
            r matches DebianError::MissingRequiredFile { package: p, file: f } && p@ == package@
                && f@ == file@,
    {
        DebianError::MissingRequiredFile { package: owned(package), file: owned(file) }
    }

    /// An invalid control file error.
    pub fn invalid_control_file(package: &str, reason: &str) -> (r: Self)
        ensures
            r matches DebianError::InvalidControlFile { package: p, reason: m } && p@ == package@
                && m@ == reason@,
    {
        DebianError::InvalidControlFile { package: owned(package), reason: owned(reason) }
    }

    /// An invalid version error.
    pub fn invalid_version(version: &str, reason: &str) -> (r: Self)
        ensures
            r matches DebianError::InvalidVersion { version: v, reason: m } && v@ == version@
                && m@ == reason@,
    {
        DebianError::InvalidVersion { version: owned(version), reason: owned(reason) }
    }

    /// A dependency mapping error.
    pub fn dependency_mapping_failed(dependency: &str, reason: &str) -> (r: Self)
        ensures
            r matches DebianError::DependencyMappingFailed { dependency: d, reason: m } && d@
                == dependency@ && m@ == reason@,
    {
        DebianError::DependencyMappingFailed { dependency: owned(dependency), reason: owned(reason) }
    }

    /// A bloom-generate error.
    pub fn bloom_generate_failed(package: &str, reason: &str) -> (r: Self)
        ensures
            r matches DebianError::BloomGenerateFailed { package: p, reason: m } && p@ == package@
                && m@ == reason@,
    {
        DebianError::BloomGenerateFailed { package: owned(package), reason: owned(reason) }
    }

    /// A repository generation error.
    pub fn repository_generation_failed(reason: &str) -> (r: Self)
        ensures
            r matches DebianError::RepositoryGenerationFailed { reason: m } && m@ == reason@,
    {
        DebianError::RepositoryGenerationFailed { reason: owned(reason) }
    }
}

impl DebianError {
    /// The message of the error.
    pub fn to_text(&self) -> (r: String)
        ensures
            r@ == debian_error_text(self@),
    {
        let mut r = String::new();
        match self {
            DebianError::InvalidPackageName { name } => {
                r.append("Invalid package name: ");
                r.append(name.as_str());
            },
            DebianError::MissingRequiredFile { package, file } => {
                r.append("Missing required file: ");
                r.append(file.as_str());
                r.append(" in debian directory for package ");
                r.append(package.as_str());
            },
            DebianError::InvalidControlFile { package, reason } => {
                r.append("Invalid debian control file for package ");
                r.append(package.as_str());
                r.append(": ");
                r.append(reason.as_str());
            },
            DebianError::InvalidVersion { version, reason } => {
                r.append("Invalid version format: ");
                r.append(version.as_str());
                r.append(" - ");
                r.append(reason.as_str());
            },
            DebianError::DependencyMappingFailed { dependency, reason } => {
                r.append("Failed to map dependency ");
                r.append(dependency.as_str());
                r.append(": ");
                r.append(reason.as_str());
            },
            DebianError::BloomGenerateFailed { package, reason } => {
                r.append("bloom-generate failed for package ");
                r.append(package.as_str());
                r.append(": ");
                r.append(reason.as_str());
            },
            DebianError::RepositoryGenerationFailed { reason } => {
                r.append("Repository generation failed: ");
                r.append(reason.as_str());
            },
            DebianError::Io { message } => {
                r.append("File system error: ");
                r.append(message.as_str());
            },
            DebianError::Json { message } => {
                r.append("JSON error: ");
                r.append(message.as_str());
            },
            DebianError::Core(e) => {
                r.append("Core error: ");
                r.append(e.to_text().as_str());
            },
        }
        r
    }
}

} // verus!
