//! Verified core of the colcon Debian packager: ROS manifest parsing,
//! ROS-to-Debian name and version mapping, debian directory checks,
//! progress-line parsing and the build bookkeeping around them.
pub mod text;
pub mod error;
pub mod order;
pub mod paths;
pub mod package;
pub mod dependency;
pub mod debian_error;
pub mod mapping;
pub mod regex_match;
pub mod version;
pub mod package_xml;
pub mod xml;
pub mod parser;
pub mod validation;
pub mod progress;
pub mod arch;
pub mod docker_error;
pub mod build_error;
pub mod recovery;
pub mod shutdown;
pub mod config;
pub mod context;
pub mod docker_types;
pub mod executor;
pub mod artifact;
pub mod progress_ui;
pub mod repository;
pub mod manager;
pub mod commands;
pub mod summary;
pub mod orchestrator;
pub mod build_result;
pub mod image_context;
