//! The state of a build: its stage, its counts and timestamps, and the
//! result of each package.
use vstd::prelude::*;
use vstd::hash_map::StringHashMap;
use std::path::PathBuf;
use std::time::Duration;
use crate::config::Config;
use crate::package::Package;
use crate::text::{decimal, owned, push_decimal};

verus! {

/// Stage of a build.
#[derive(Debug, Clone, Copy, PartialEq, Eq, Structural)]
pub enum BuildState {
    /// Initial state
    Idle,
    /// Preparing environment
    Preparing,
    /// Ready to build
    Ready,
    /// Currently building
    Building,
    /// Collecting artifacts
    CollectingArtifacts,
    /// Build completed successfully
    Completed,
    /// Build failed
    Failed,
}

/// Counts and times of a build; times are milliseconds since the Unix epoch.
#[derive(Debug, Clone, Copy, PartialEq, Eq, Structural)]
pub struct BuildStats {
    /// Total packages to build
    pub total_packages: usize,
    /// Successfully built packages
    pub built_packages: usize,
    /// Failed packages
    pub failed_packages: usize,
    /// Skipped packages
    pub skipped_packages: usize,
    /// Build start time
    pub start_time: Option<i64>,
    /// Build end time
    pub end_time: Option<i64>,
}

impl Default for BuildStats {
    fn default() -> (r: Self)
        ensures
            r == (BuildStats {
                total_packages: 0,
                built_packages: 0,
                failed_packages: 0,
                skipped_packages: 0,
                start_time: None,
                end_time: None,
            }),
    {
        BuildStats {
            total_packages: 0,
            built_packages: 0,
            failed_packages: 0,
            skipped_packages: 0,
            start_time: None,
            end_time: None,
        }
    }
}

/// The build's duration in milliseconds: from start to end, or to `now`
/// while it runs; none before it starts. A negative span reads as it does
/// through `as u64`.
pub open spec fn duration_of(s: BuildStats, now: i64) -> Option<u64> {
    match (s.start_time, s.end_time) {
        (Some(start), Some(end)) => Some(#[verifier::truncate] ((end - start) as u64)),
        (Some(start), None) => Some(#[verifier::truncate] ((now - start) as u64)),
        _ => None,
    }
}

/// `chrono::Utc::now().timestamp_millis()`: the current time in
/// milliseconds since the Unix epoch; it depends on the clock, so nothing
/// is stated of it.
#[verifier::external_body]
pub(crate) fn now_millis() -> i64 {
    chrono::Utc::now().timestamp_millis()
}

/// `a - b` as a `u64` (the difference modulo 2^64).
fn span(a: i64, b: i64) -> (r: u64)
    ensures
        r == #[verifier::truncate] ((a - b) as u64),
{
    let d: i128 = (a as i128) - (b as i128);
    #[verifier::truncate] (d as u64)
}

impl BuildStats {
    /// The build's duration in milliseconds, `now` being the current time.
    pub fn duration_at(&self, now: i64) -> (r: Option<u64>)
        ensures
            r == duration_of(*self, now),
    {
        match (self.start_time, self.end_time) {
            (Some(start), Some(end)) => Some(span(end, start)),
            (Some(start), None) => Some(span(now, start)),
            _ => None,
        }
    }

    /// The build's duration in milliseconds, up to now while it runs.
    pub fn duration(&self) -> (r: Option<u64>)
        ensures
            match (self.start_time, self.end_time) {
                (Some(s), Some(e)) => r == Some(#[verifier::truncate] ((e - s) as u64)),
                (Some(_), None) => r is Some,
                (None, _) => r is None,
            },
    {
        let now = now_millis();
        self.duration_at(now)
    }

    /// Whether every package has been built, has failed or was skipped.
    pub fn is_complete(&self) -> (r: bool)
        ensures
            r == (self.built_packages + self.failed_packages + self.skipped_packages >= self.total_packages),
    {
        (self.built_packages as u128) + (self.failed_packages as u128) + (self.skipped_packages as u128)
            >= self.total_packages as u128
    }
}

/// Outcome of building one package.
#[derive(Debug, PartialEq, Eq)]
pub struct PackageBuildResult {
    /// Package name
    pub name: String,
    /// Success status
    pub success: bool,
    /// Error message if failed
    pub error: Option<String>,
    /// Build duration
    pub duration: Duration,
    /// Generated artifacts
    pub artifacts: Vec<PathBuf>,
}

/// Everything known of a build.
pub struct BuildContext {
    config: Config,
    state: BuildState,
    stats: BuildStats,
    results: StringHashMap<PackageBuildResult>,
    packages: Vec<Package>,
    container_id: Option<String>,
}

impl BuildContext {
    /// The build configuration.
    pub closed spec fn config_of(&self) -> Config {
        self.config
    }

    /// The stage of the build.
    pub closed spec fn state_of(&self) -> BuildState {
        self.state
    }

    /// The counts and times of the build.
    pub closed spec fn stats_of(&self) -> BuildStats {
        self.stats
    }

    /// The result of each package, by name.
    pub closed spec fn results_of(&self) -> Map<Seq<char>, PackageBuildResult> {
        self.results@
    }

    /// The packages to build.
    pub closed spec fn packages_of(&self) -> Seq<Package> {
        self.packages@
    }

    /// The running container, if any.
    pub closed spec fn container_of(&self) -> Option<String> {
        self.container_id
    }

    /// A new build context: idle, nothing counted, nothing built.
    pub fn new(config: Config) -> (r: Self)
        ensures
            r.config_of() == config,
            r.state_of() == BuildState::Idle,
            r.stats_of() == (BuildStats {
                total_packages: 0,
                built_packages: 0,
                failed_packages: 0,
                skipped_packages: 0,
                start_time: None,
                end_time: None,
            }),
            r.results_of() == Map::<Seq<char>, PackageBuildResult>::empty(),
            r.packages_of() == Seq::<Package>::empty(),
            r.container_of() is None,
    {
        BuildContext {
            config,
            state: BuildState::Idle,
            stats: BuildStats::default(),
            results: StringHashMap::new(),
            packages: Vec::new(),
            container_id: None,
        }
    }

    /// The build configuration.
    pub fn config(&self) -> (r: &Config)
        ensures
            *r == self.config_of(),
    {
        &self.config
    }

    /// The stage of the build.
    pub fn state(&self) -> (r: BuildState)
        ensures
            r == self.state_of(),
    {
        self.state
    }

    /// Moves the build to `state` now: entering `Building` records the
    /// start time, entering `Completed` or `Failed` the end time.
    pub fn set_state(&mut self, state: BuildState)
        ensures
            final(self).state_of() == state,
            match state {
                BuildState::Building => final(self).stats_of().start_time is Some
                    && final(self).stats_of() == (BuildStats {
                    start_time: final(self).stats_of().start_time,
                    ..old(self).stats_of()
                }),
                BuildState::Completed | BuildState::Failed => final(self).stats_of().end_time is Some
                    && final(self).stats_of() == (BuildStats {
                    end_time: final(self).stats_of().end_time,
                    ..old(self).stats_of()
                }),
                _ => final(self).stats_of() == old(self).stats_of(),
            },
            final(self).config_of() == old(self).config_of(),
            final(self).results_of() == old(self).results_of(),
            final(self).packages_of() == old(self).packages_of(),
            final(self).container_of() == old(self).container_of(),
    {
        let now = now_millis();
        self.set_state_at(state, now);
    }

    /// Moves the build to `state` at time `now` (milliseconds since the
    /// epoch): entering `Building` records the start time, entering
    /// `Completed` or `Failed` the end time.
    pub fn set_state_at(&mut self, state: BuildState, now: i64)
        ensures
            final(self).state_of() == state,
            final(self).stats_of() == (match state {
                BuildState::Building => BuildStats { start_time: Some(now), ..old(self).stats_of() },
                BuildState::Completed | BuildState::Failed => BuildStats {
                    end_time: Some(now),
                    ..old(self).stats_of()
                },
                _ => old(self).stats_of(),
            }),
            final(self).config_of() == old(self).config_of(),
            final(self).results_of() == old(self).results_of(),
            final(self).packages_of() == old(self).packages_of(),
            final(self).container_of() == old(self).container_of(),
    {
        self.state = state;
        match state {
            BuildState::Building => {
                self.stats.start_time = Some(now);
            },
            BuildState::Completed | BuildState::Failed => {
                self.stats.end_time = Some(now);
            },
            _ => {},
        }
    }

    /// The counts and times of the build.
    pub fn stats(&self) -> (r: BuildStats)
        ensures
            r == self.stats_of(),
    {
        self.stats
    }

    /// The counts and times, to be updated in place.
    pub fn stats_mut(&mut self) -> (r: &mut BuildStats)
        ensures
            *r == old(self).stats_of(),
            final(self).stats_of() == *final(r),
            final(self).state_of() == old(self).state_of(),
            final(self).config_of() == old(self).config_of(),
            final(self).results_of() == old(self).results_of(),
            final(self).packages_of() == old(self).packages_of(),
            final(self).container_of() == old(self).container_of(),
    {
        &mut self.stats
    }

    /// Records the result of a package and counts it as built or failed.
    pub fn add_result(&mut self, result: PackageBuildResult)
        requires
            result.success ==> old(self).stats_of().built_packages < usize::MAX,
            !result.success ==> old(self).stats_of().failed_packages < usize::MAX,
        ensures
            final(self).results_of() == old(self).results_of().insert(result.name@, result),
            final(self).stats_of() == (if result.success {
                BuildStats {
                    built_packages: (old(self).stats_of().built_packages + 1) as usize,
                    ..old(self).stats_of()
                }
            } else {
                BuildStats {
                    failed_packages: (old(self).stats_of().failed_packages + 1) as usize,
                    ..old(self).stats_of()
                }
            }),
            final(self).state_of() == old(self).state_of(),
            final(self).config_of() == old(self).config_of(),
            final(self).packages_of() == old(self).packages_of(),
            final(self).container_of() == old(self).container_of(),
    {
        let name = result.name.clone();
        let success = result.success;
        self.results.insert(name, result);
        if success {
            self.stats.built_packages = self.stats.built_packages + 1;
        } else {
            self.stats.failed_packages = self.stats.failed_packages + 1;
        }
    }

    /// The result of each package, by name.
    pub fn results(&self) -> (r: &StringHashMap<PackageBuildResult>)
        ensures
            r@ == self.results_of(),
    {
        &self.results
    }

    /// Sets the packages to build; their number is the total to build.
    pub fn set_packages(&mut self, packages: Vec<Package>)
        ensures
            final(self).packages_of() == packages@,
            final(self).stats_of() == (BuildStats { total_packages: packages.len(), ..old(self).stats_of() }),
            final(self).state_of() == old(self).state_of(),
            final(self).config_of() == old(self).config_of(),
            final(self).results_of() == old(self).results_of(),
            final(self).container_of() == old(self).container_of(),
    {
        let count = packages.len();
        self.packages = packages;
        self.stats.total_packages = count;
    }

    /// The packages to build.
    pub fn packages(&self) -> (r: &Vec<Package>)
        ensures
            r@ == self.packages_of(),
    {
        &self.packages
    }

    /// Sets the running container.
    pub fn set_container_id(&mut self, id: Option<String>)
        ensures
            final(self).container_of() == id,
            final(self).state_of() == old(self).state_of(),
            final(self).stats_of() == old(self).stats_of(),
            final(self).config_of() == old(self).config_of(),
            final(self).results_of() == old(self).results_of(),
            final(self).packages_of() == old(self).packages_of(),
    {
        self.container_id = id;
    }

    /// The running container, if any.
    pub fn container_id(&self) -> (r: Option<String>)
        ensures
            match (r, self.container_of()) {
                (Some(a), Some(b)) => a@ == b@,
                (None, None) => true,
                _ => false,
            },
    {
        match &self.container_id {
            Some(id) => Some(id.clone()),
            None => None,
        }
    }

    /// Whether every package is accounted for and none failed.
    pub fn is_successful(&self) -> (r: bool)
        ensures
            r == (self.stats_of().built_packages + self.stats_of().failed_packages
                + self.stats_of().skipped_packages >= self.stats_of().total_packages
                && self.stats_of().failed_packages == 0),
    {
        let stats = self.stats();
        stats.is_complete() && stats.failed_packages == 0
    }

    /// A one-line summary of the build; `duration_text` is what is said of
    /// its duration (empty when unknown, else ` in <seconds>s`).
    pub fn summary(&self, duration_text: &str) -> (r: String)
        ensures
            r@ == summary_text(self.stats_of(), duration_text@),
    {
        let s = &self.stats;
        let mut r = owned("Built ");
        push_decimal(&mut r, s.built_packages as u64);
        r.append("/");
        push_decimal(&mut r, s.total_packages as u64);
        r.append(" packages successfully");
        r.append(duration_text);
        r.append(". ");
        push_decimal(&mut r, s.failed_packages as u64);
        r.append(" failed, ");
        push_decimal(&mut r, s.skipped_packages as u64);
        r.append(" skipped.");
        r
    }
}

/// How a build summary reads.
pub open spec fn summary_text(s: BuildStats, duration_text: Seq<char>) -> Seq<char> {
    "Built "@ + decimal(s.built_packages as nat) + "/"@ + decimal(s.total_packages as nat)
        + " packages successfully"@ + duration_text + ". "@ + decimal(s.failed_packages as nat)
        + " failed, "@ + decimal(s.skipped_packages as nat) + " skipped."@
}

} // verus!
