//! Package dependencies with optional version constraints.
use vstd::prelude::*;
use crate::text::{
    chars_of_string, contains_str, contains_sub, is_prefix, owned, replace_char,
    replace_char_exec, starts_with_str, string_of,
};

verus! {

/// A package dependency with an optional version constraint.
#[derive(Debug, Clone, PartialEq, Eq)]
pub struct Dependency {
    /// Package name
    pub name: String,
    /// Optional version constraint
    pub version_constraint: Option<VersionConstraint>,
    /// Optional condition (e.g., "$ROS_VERSION == 2")
    pub condition: Option<String>,
}

/// Version constraint for a dependency.
#[derive(Debug, Clone, PartialEq, Eq)]
pub enum VersionConstraint {
    /// Exact version match
    Exact(String),
    /// Minimum version (>=)
    GreaterOrEqual(String),
    /// Maximum version (<=)
    LessOrEqual(String),
    /// Version range
    Range { min: Option<String>, max: Option<String> },
}

/// The Debian package name of dependency `name` in ROS distribution `distro`:
/// a hyphenated name not starting with `ros-` is a system package and stays
/// as it is; any other becomes `agiros-<distro>-<name with _ as ->`.
pub open spec fn debian_name(name: Seq<char>, distro: Seq<char>) -> Seq<char> {
    if contains_sub(name, "-"@) && !is_prefix("ros-"@, name) {
        name
    } else {
        "agiros-"@ + distro + "-"@ + replace_char(name, '_', '-')
    }
}

/// The Debian `Depends` entry for package `p` under a constraint.
pub open spec fn debian_dependency(p: Seq<char>, c: Option<VersionConstraint>) -> Seq<char> {
    match c {
        None => p,
        Some(VersionConstraint::Exact(v)) => p + " (= "@ + v@ + ")"@,
        Some(VersionConstraint::GreaterOrEqual(v)) => p + " (>= "@ + v@ + ")"@,
        Some(VersionConstraint::LessOrEqual(v)) => p + " (<= "@ + v@ + ")"@,
        Some(VersionConstraint::Range { min, max }) => match (min, max) {
            (Some(lo), Some(hi)) => p + " (>= "@ + lo@ + "), "@ + p + " (<= "@ + hi@ + ")"@,
            (Some(lo), None) => p + " (>= "@ + lo@ + ")"@,
            (None, Some(hi)) => p + " (<= "@ + hi@ + ")"@,
            (None, None) => p,
        },
    }
}

/// The text of a constraint (`VersionConstraint`'s display form).
pub open spec fn constraint_text(c: VersionConstraint) -> Seq<char> {
    match c {
        VersionConstraint::Exact(v) => "= "@ + v@,
        VersionConstraint::GreaterOrEqual(v) => ">= "@ + v@,
        VersionConstraint::LessOrEqual(v) => "<= "@ + v@,
        VersionConstraint::Range { min, max } => match (min, max) {
            (Some(lo), Some(hi)) => ">= "@ + lo@ + " <= "@ + hi@,
            (Some(lo), None) => ">= "@ + lo@,
            (None, Some(hi)) => "<= "@ + hi@,
            (None, None) => Seq::empty(),
        },
    }
}

/// The text of a dependency: name, then ` <constraint>`, then ` [<condition>]`.
pub open spec fn dependency_text(d: Dependency) -> Seq<char> {
    d.name@ + match d.version_constraint {
        Some(c) => " "@ + constraint_text(c),
        None => Seq::empty(),
    } + match d.condition {
        Some(c) => " ["@ + c@ + "]"@,
        None => Seq::empty(),
    }
}

impl VersionConstraint {
    /// The display text of the constraint.
    pub fn display_string(&self) -> (r: String)
        ensures
            r@ == constraint_text(*self),
    {
        match self {
            VersionConstraint::Exact(v) => owned("= ").concat(v.as_str()),
            VersionConstraint::GreaterOrEqual(v) => owned(">= ").concat(v.as_str()),
            VersionConstraint::LessOrEqual(v) => owned("<= ").concat(v.as_str()),
            VersionConstraint::Range { min, max } => match (min, max) {
                (Some(lo), Some(hi)) => owned(">= ").concat(lo.as_str()).concat(" <= ").concat(
                    hi.as_str(),
                ),
                (Some(lo), None) => owned(">= ").concat(lo.as_str()),
                (None, Some(hi)) => owned("<= ").concat(hi.as_str()),
                (None, None) => String::new(),
            },
        }
    }
}

impl Dependency {
    /// A dependency without version constraint or condition.
    pub fn new(name: &str) -> (r: Dependency)
        ensures
            r.name@ == name@,
            r.version_constraint is None,
            r.condition is None,
    {
        Dependency { name: owned(name), version_constraint: None, condition: None }
    }

    /// A dependency on at least `version` of `name`.
    pub fn with_min_version(name: &str, version: &str) -> (r: Dependency)
        ensures
            r.name@ == name@,
            r.version_constraint matches Some(VersionConstraint::GreaterOrEqual(v)) && v@
                == version@,
            r.condition is None,
    {
        Dependency {
            name: owned(name),
            version_constraint: Some(VersionConstraint::GreaterOrEqual(owned(version))),
            condition: None,
        }
    }

    /// The Debian package name of this dependency (e.g., `agiros-loong-foo`).
    pub fn to_debian_name(&self, ros_distro: &str) -> (r: String)
        ensures
            r@ == debian_name(self.name@, ros_distro@),
    {
        let n = chars_of_string(&self.name);
        if contains_str(&n, "-") && !starts_with_str(&n, "ros-") {
            self.name.clone()
        } else {
            let dashed = string_of(&replace_char_exec(&n, '_', '-'));
            owned("agiros-").concat(ros_distro).concat("-").concat(dashed.as_str())
        }
    }

    /// The Debian dependency entry, with the version constraint written out.
    pub fn to_debian_dependency(&self, ros_distro: &str) -> (r: String)
        ensures
            r@ == debian_dependency(debian_name(self.name@, ros_distro@), self.version_constraint),
    {
        let p = self.to_debian_name(ros_distro);
        match &self.version_constraint {
            None => p,
            Some(VersionConstraint::Exact(v)) => p.concat(" (= ").concat(v.as_str()).concat(")"),
            Some(VersionConstraint::GreaterOrEqual(v)) => p.concat(" (>= ").concat(
                v.as_str(),
            ).concat(")"),
            Some(VersionConstraint::LessOrEqual(v)) => p.concat(" (<= ").concat(
                v.as_str(),
            ).concat(")"),
            Some(VersionConstraint::Range { min, max }) => match (min, max) {
                (Some(lo), Some(hi)) => {
                    let q = p.clone();
                    p.concat(" (>= ").concat(lo.as_str()).concat("), ").concat(q.as_str()).concat(
                        " (<= ",
                    ).concat(hi.as_str()).concat(")")
                },
                (Some(lo), None) => p.concat(" (>= ").concat(lo.as_str()).concat(")"),
                (None, Some(hi)) => p.concat(" (<= ").concat(hi.as_str()).concat(")"),
                (None, None) => p,
            },
        }
    }

    /// The display text: name, constraint and condition.
    pub fn display_string(&self) -> (r: String)
        ensures
            r@ == dependency_text(*self),
    {
        let mut s = self.name.clone();
        match &self.version_constraint {
            Some(c) => {
                let t = c.display_string();
                s.append(" ");
                s.append(t.as_str());
            },
            None => {},
        }
        match &self.condition {
            Some(c) => {
                s.append(" [");
                s.append(c.as_str());
                s.append("]");
            },
            None => {},
        }
        s
    }
}

} // verus!
