//! Errors shared by every part of the packager.
use vstd::prelude::*;
use crate::text::owned;

verus! {

/// Error of a colcon-deb operation.
#[derive(Debug, Clone, PartialEq, Eq)]
pub enum Error {
    /// I/O operation failed, with the system's message
    Io(String),
    /// Serialization or deserialization failed, with its message
    Serialization(String),
    /// Package not found
    PackageNotFound { name: String },
    /// Invalid package format
    InvalidPackage { reason: String },
    /// Dependency error
    DependencyError { message: String },
    /// Build failed
    BuildFailed { package: String, reason: String },
    /// Configuration error
    ConfigError { message: String },
    /// Docker error
    DockerError { message: String },
    /// Parse error
    ParseError { message: String },
    /// An error of another kind, with the context it arose in
    WithContext { context: String, source: String },
}

/// How an error reads: its prefix followed by its details.
pub open spec fn error_text(e: Error) -> Seq<char> {
    match e {
        Error::Io(m) => "I/O error: "@ + m@,
        Error::Serialization(m) => "Serialization error: "@ + m@,
        Error::PackageNotFound { name } => "Package not found: "@ + name@,
        Error::InvalidPackage { reason } => "Invalid package format: "@ + reason@,
        Error::DependencyError { message } => "Dependency error: "@ + message@,
        Error::BuildFailed { package, reason } => "Build failed for package "@ + package@ + ": "@
            + reason@,
        Error::ConfigError { message } => "Configuration error: "@ + message@,
        Error::DockerError { message } => "Docker error: "@ + message@,
        Error::ParseError { message } => "Parse error: "@ + message@,
        Error::WithContext { context, source } => context@ + ": "@ + source@,
    }
}

impl Error {
    /// An error that records the context it arose in, with the source's message.
    pub fn context(context: &str, source: &str) -> (r: Error)
        ensures
            r matches Error::WithContext { context: c, source: s } && c@ == context@ && s@
                == source@,
    {
        Error::WithContext { context: owned(context), source: owned(source) }
    }

    /// The message of the error.
    pub fn to_text(&self) -> (r: String)
        ensures
            r@ == error_text(*self),
    {
        let (prefix, first, sep, second): (&str, &String, &str, Option<&String>) = match self {
            Error::Io(m) => ("I/O error: ", m, "", None),
            Error::Serialization(m) => ("Serialization error: ", m, "", None),
            Error::PackageNotFound { name } => ("Package not found: ", name, "", None),
            Error::InvalidPackage { reason } => ("Invalid package format: ", reason, "", None),
            Error::DependencyError { message } => ("Dependency error: ", message, "", None),
            Error::BuildFailed { package, reason } => (
                "Build failed for package ",
                package,
                ": ",
                Some(reason),
            ),
            Error::ConfigError { message } => ("Configuration error: ", message, "", None),
            Error::DockerError { message } => ("Docker error: ", message, "", None),
            Error::ParseError { message } => ("Parse error: ", message, "", None),
            Error::WithContext { context, source } => ("", context, ": ", Some(source)),
        };
        let mut r = owned(prefix);
        r.append(first.as_str());
        match second {
            Some(s) => {
                r.append(sep);
                r.append(s.as_str());
            },
            None => {},
        }
        proof {
            reveal_strlit("");
        }
        r
    }
}

} // verus!
