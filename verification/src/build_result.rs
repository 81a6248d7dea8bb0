//! The record of one package's build: its status through queueing,
//! building and completion, with times in milliseconds since the epoch.
use vstd::prelude::*;
use crate::context::now_millis;
use crate::text::owned;

verus! {

/// Build status
#[derive(Debug, Clone, Copy, PartialEq, Eq, Structural)]
pub enum BuildStatus {
    /// Build succeeded
    Success,
    /// Build failed
    Failed,
    /// Build was skipped
    Skipped,
    /// Build is in progress
    InProgress,
    /// Build is queued
    Queued,
}

impl BuildStatus {
    /// Check if the build is complete: succeeded, failed or skipped.
    pub fn is_complete(&self) -> (r: bool)
        ensures
            r == (*self is Success || *self is Failed || *self is Skipped),
    {
        match self {
            BuildStatus::Success | BuildStatus::Failed | BuildStatus::Skipped => true,
            _ => false,
        }
    }

    /// Check if the build was successful
    pub fn is_success(&self) -> (r: bool)
        ensures
            r == (*self is Success),
    {
        match self {
            BuildStatus::Success => true,
            _ => false,
        }
    }

    /// Check if the build failed
    pub fn is_failed(&self) -> (r: bool)
        ensures
            r == (*self is Failed),
    {
        match self {
            BuildStatus::Failed => true,
            _ => false,
        }
    }
}

/// Result of building a package
pub struct BuildResult {
    /// Package name
    pub package_name: String,
    /// Build status
    pub status: BuildStatus,
    /// Start time, in milliseconds since the epoch
    pub start_time: i64,
    /// End time, in milliseconds since the epoch
    pub end_time: i64,
    /// Duration in milliseconds (end minus start, once finished)
    pub duration_millis: i128,
    /// Generated .deb file paths
    pub deb_files: Vec<String>,
    /// Build log output
    pub log: Option<String>,
    /// Error message if failed, or the reason it was skipped
    pub error: Option<String>,
}

impl BuildResult {
    /// A queued build of `package_name`, created at `now`.
    pub fn new_at(package_name: &str, now: i64) -> (r: Self)
        ensures
            r.package_name@ == package_name@,
            r.status == BuildStatus::Queued,
            r.start_time == now,
            r.end_time == now,
            r.duration_millis == 0,
            r.deb_files@.len() == 0,
            r.log is None,
            r.error is None,
    {
        BuildResult {
            package_name: owned(package_name),
            status: BuildStatus::Queued,
            start_time: now,
            end_time: now,
            duration_millis: 0,
            deb_files: Vec::new(),
            log: None,
            error: None,
        }
    }

    /// Create a new build result, queued now.
    pub fn new(package_name: &str) -> (r: Self)
        ensures
            r.package_name@ == package_name@,
            r.status == BuildStatus::Queued,
            r.start_time == r.end_time,
            r.duration_millis == 0,
            r.deb_files@.len() == 0,
            r.log is None,
            r.error is None,
    {
        Self::new_at(package_name, now_millis())
    }

    /// Mark build as started at `now`.
    pub fn start_at(&mut self, now: i64)
        ensures
            final(self).status == BuildStatus::InProgress,
            final(self).start_time == now,
            final(self).end_time == old(self).end_time,
            final(self).duration_millis == old(self).duration_millis,
            final(self).package_name == old(self).package_name,
            final(self).deb_files == old(self).deb_files,
            final(self).error == old(self).error,
    {
        self.status = BuildStatus::InProgress;
        self.start_time = now;
    }

    /// Mark build as started now.
    pub fn start(&mut self)
        ensures
            final(self).status == BuildStatus::InProgress,
            final(self).end_time == old(self).end_time,
            final(self).package_name == old(self).package_name,
            final(self).deb_files == old(self).deb_files,
            final(self).error == old(self).error,
    {
        self.start_at(now_millis());
    }

    /// Mark build as completed successfully at `now`, with its packages.
    pub fn succeed_at(&mut self, deb_files: Vec<String>, now: i64)
        ensures
            final(self).status == BuildStatus::Success,
            final(self).end_time == now,
            final(self).duration_millis == now - old(self).start_time,
            final(self).deb_files == deb_files,
            final(self).start_time == old(self).start_time,
            final(self).package_name == old(self).package_name,
            final(self).error == old(self).error,
    {
        self.status = BuildStatus::Success;
        self.end_time = now;
        self.duration_millis = now as i128 - self.start_time as i128;
        self.deb_files = deb_files;
    }

    /// Mark build as completed successfully now.
    pub fn succeed(&mut self, deb_files: Vec<String>)
        ensures
            final(self).status == BuildStatus::Success,
            final(self).duration_millis == final(self).end_time - old(self).start_time,
            final(self).deb_files == deb_files,
            final(self).package_name == old(self).package_name,
    {
        self.succeed_at(deb_files, now_millis());
    }

    /// Mark build as failed at `now` with `error`.
    pub fn fail_at(&mut self, error: &str, now: i64)
        ensures
            final(self).status == BuildStatus::Failed,
            final(self).end_time == now,
            final(self).duration_millis == now - old(self).start_time,
            final(self).error matches Some(e) && e@ == error@,
            final(self).start_time == old(self).start_time,
            final(self).package_name == old(self).package_name,
            final(self).deb_files == old(self).deb_files,
    {
        self.status = BuildStatus::Failed;
        self.end_time = now;
        self.duration_millis = now as i128 - self.start_time as i128;
        self.error = Some(owned(error));
    }

    /// Mark build as failed now.
    pub fn fail(&mut self, error: &str)
        ensures
            final(self).status == BuildStatus::Failed,
            final(self).duration_millis == final(self).end_time - old(self).start_time,
            final(self).error matches Some(e) && e@ == error@,
            final(self).package_name == old(self).package_name,
    {
        self.fail_at(error, now_millis());
    }

    /// Mark build as skipped at `now` for `reason`; the duration is kept.
    pub fn skip_at(&mut self, reason: &str, now: i64)
        ensures
            final(self).status == BuildStatus::Skipped,
            final(self).end_time == now,
            final(self).duration_millis == old(self).duration_millis,
            final(self).error matches Some(e) && e@ == reason@,
            final(self).start_time == old(self).start_time,
            final(self).package_name == old(self).package_name,
            final(self).deb_files == old(self).deb_files,
    {
        self.status = BuildStatus::Skipped;
        self.end_time = now;
        self.error = Some(owned(reason));
    }

    /// Mark build as skipped now.
    pub fn skip(&mut self, reason: &str)
        ensures
            final(self).status == BuildStatus::Skipped,
            final(self).error matches Some(e) && e@ == reason@,
            final(self).package_name == old(self).package_name,
    {
        self.skip_at(reason, now_millis());
    }
}

} // verus!
