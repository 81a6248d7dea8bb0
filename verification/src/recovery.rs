//! Recovery from build failures: which action a failure calls for, and the
//! decisions of the retry loop (the waiting and the backoff delays belong to
//! the caller).
use vstd::prelude::*;
use crate::build_error::{describes, retryable, BuildError};
use crate::text::{contains_str, contains_sub, chars_of, owned};

verus! {

/// The largest duration `std::time::Duration` holds, in nanoseconds.
pub const MAX_DURATION_NANOS: u128 = 18446744073709551615999999999u128;

/// Recovery strategies for build failures.
#[derive(Debug, Clone, Copy, PartialEq, Eq, Structural)]
pub enum BuildRecoveryStrategy {
    /// Don't attempt recovery
    NoRecovery,
    /// Retry the failed operation
    Retry,
    /// Clean environment and retry
    CleanRetry,
    /// Skip the failed package and continue
    Skip,
    /// Attempt graceful degradation
    Graceful,
}

/// Actions that can be taken during recovery.
#[derive(Debug, Clone, Copy, PartialEq, Eq, Structural)]
pub enum RecoveryAction {
    /// Retry the operation
    Retry,
    /// Clean environment and retry
    CleanAndRetry,
    /// Skip the failed operation
    Skip,
    /// Attempt graceful degradation
    Graceful,
    /// Fail the operation
    Fail,
    /// Abort the entire build
    Abort,
}

/// What is known of a failure being recovered from.
#[derive(Debug, Clone, PartialEq, Eq)]
pub struct RecoveryContext {
    /// The operation that failed
    pub operation: String,
    /// The message of the error that occurred
    pub error_message: String,
    /// Whether the error is retryable
    pub is_retryable: bool,
    /// Number of attempts made so far
    pub attempt_count: u32,
    /// Time spent on attempts so far, in nanoseconds
    pub elapsed_time: u128,
    /// Package name if applicable
    pub package_name: Option<String>,
}

impl RecoveryContext {
    /// The context of a first failed attempt of `operation` with `error`.
    pub fn new(operation: &str, error: &BuildError) -> (r: Self)
        ensures
            r.operation@ == operation@,
            describes(*error, r.error_message@),
            r.is_retryable == retryable(*error),
            r.attempt_count == 1,
            r.elapsed_time == 0,
            r.package_name is None,
    {
        RecoveryContext {
            operation: owned(operation),
            error_message: error.to_text(),
            is_retryable: error.is_retryable(),
            attempt_count: 1,
            elapsed_time: 0,
            package_name: None,
        }
    }

    /// The context of a first failed attempt of `operation` on `package` with `error`.
    pub fn for_package(operation: &str, package: &str, error: &BuildError) -> (r: Self)
        ensures
            r.operation@ == operation@,
            describes(*error, r.error_message@),
            r.is_retryable == retryable(*error),
            r.attempt_count == 1,
            r.elapsed_time == 0,
            r.package_name matches Some(p) && p@ == package@,
    {
        RecoveryContext {
            operation: owned(operation),
            error_message: error.to_text(),
            is_retryable: error.is_retryable(),
            attempt_count: 1,
            elapsed_time: 0,
            package_name: Some(owned(package)),
        }
    }

    /// Counts one more attempt.
    pub fn increment_attempt(&mut self)
        requires
            old(self).attempt_count < u32::MAX,
        ensures
            *final(self) == (RecoveryContext { attempt_count: (old(self).attempt_count + 1) as u32, ..*old(self) }),
    {
        self.attempt_count = self.attempt_count + 1;
    }

    /// Adds `nanos` nanoseconds to the time spent.
    pub fn add_elapsed_time(&mut self, nanos: u128)
        requires
            old(self).elapsed_time + nanos <= MAX_DURATION_NANOS,
        ensures
            *final(self) == (RecoveryContext { elapsed_time: (old(self).elapsed_time + nanos) as u128, ..*old(self) }),
    {
        self.elapsed_time = self.elapsed_time + nanos;
    }
}

/// Whether an error message tells of a shutdown or a cancellation.
pub open spec fn tells_of_abort(m: Seq<char>) -> bool {
    contains_sub(m, "Shutdown"@) || contains_sub(m, "cancelled"@) || contains_sub(m, "Cancelled"@)
}

/// The recovery action for a failure: abort on a shutdown or cancellation;
/// otherwise as the strategy says, a retry only while attempts remain and
/// the error is retryable.
pub open spec fn recovery_action(
    strategy: BuildRecoveryStrategy,
    max_attempts: u32,
    message: Seq<char>,
    is_retryable: bool,
    attempt_count: u32,
) -> RecoveryAction {
    if tells_of_abort(message) {
        RecoveryAction::Abort
    } else {
        match strategy {
            BuildRecoveryStrategy::NoRecovery => RecoveryAction::Fail,
            BuildRecoveryStrategy::Retry => if is_retryable && attempt_count < max_attempts {
                RecoveryAction::Retry
            } else {
                RecoveryAction::Fail
            },
            BuildRecoveryStrategy::CleanRetry => if is_retryable && attempt_count < max_attempts {
                RecoveryAction::CleanAndRetry
            } else {
                RecoveryAction::Fail
            },
            BuildRecoveryStrategy::Skip => RecoveryAction::Skip,
            BuildRecoveryStrategy::Graceful => RecoveryAction::Graceful,
        }
    }
}

/// The next step of the retry loop after a failed attempt.
#[derive(Debug, PartialEq, Eq)]
pub enum RetryStep {
    /// Stop, failing with this error
    Stop(BuildError),
    /// Ask the backoff for a delay before trying again
    Backoff,
}

/// Recovery policy: the strategy and the limits of retrying.
#[derive(Debug, Clone, PartialEq, Eq)]
pub struct RecoveryManager {
    /// Recovery strategy to use
    pub strategy: BuildRecoveryStrategy,
    /// Maximum number of attempts
    pub max_attempts: u32,
    /// Maximum total time spent on attempts, in nanoseconds
    pub max_elapsed_time: Option<u128>,
}

impl RecoveryManager {
    /// A manager with the given strategy and limits.
    pub fn new(strategy: BuildRecoveryStrategy, max_attempts: u32, max_elapsed_time: Option<u128>) -> (r: Self)
        ensures
            r == (RecoveryManager { strategy, max_attempts, max_elapsed_time }),
    {
        RecoveryManager { strategy, max_attempts, max_elapsed_time }
    }

    /// A manager with the given strategy and the default limits: three
    /// attempts within five minutes.
    pub fn with_strategy(strategy: BuildRecoveryStrategy) -> (r: Self)
        ensures
            r == (RecoveryManager { strategy, max_attempts: 3, max_elapsed_time: Some(300_000_000_000u128) }),
    {
        RecoveryManager::new(strategy, 3, Some(300_000_000_000u128))
    }

    /// The recovery action that the failure described by `context` calls for.
    pub fn determine_recovery_action(&self, context: &RecoveryContext) -> (r: RecoveryAction)
        ensures
            r == recovery_action(
                self.strategy,
                self.max_attempts,
                context.error_message@,
                context.is_retryable,
                context.attempt_count,
            ),
    {
        let m = chars_of(context.error_message.as_str());
        if contains_str(&m, "Shutdown") || contains_str(&m, "cancelled") || contains_str(&m, "Cancelled") {
            return RecoveryAction::Abort;
        }
        match self.strategy {
            BuildRecoveryStrategy::NoRecovery => RecoveryAction::Fail,
            BuildRecoveryStrategy::Retry => if context.is_retryable && context.attempt_count < self.max_attempts {
                RecoveryAction::Retry
            } else {
                RecoveryAction::Fail
            },
            BuildRecoveryStrategy::CleanRetry => if context.is_retryable && context.attempt_count
                < self.max_attempts {
                RecoveryAction::CleanAndRetry
            } else {
                RecoveryAction::Fail
            },
            BuildRecoveryStrategy::Skip => RecoveryAction::Skip,
            BuildRecoveryStrategy::Graceful => RecoveryAction::Graceful,
        }
    }

    /// Whether failed operations are tried again at all (any strategy but `NoRecovery`).
    pub fn retries(&self) -> (r: bool)
        ensures
            r == (self.strategy != BuildRecoveryStrategy::NoRecovery),
    {
        match self.strategy {
            BuildRecoveryStrategy::NoRecovery => false,
            _ => true,
        }
    }

    /// The context a retry loop of `operation_name` starts with.
    pub fn start_retry(&self, operation_name: &str) -> (r: RecoveryContext)
        ensures
            r.operation@ == operation_name@,
            r.is_retryable,
            r.attempt_count == 1,
            r.elapsed_time == 0,
            r.package_name is None,
    {
        let initial = BuildError::transient("Initial attempt");
        RecoveryContext::new(operation_name, &initial)
    }

    /// The check before each attempt: a requested shutdown stops the loop.
    pub fn before_attempt(&self, shutdown_requested: bool) -> (r: Option<BuildError>)
        ensures
            shutdown_requested ==> r == Some(BuildError::ShutdownInProgress),
            !shutdown_requested ==> r is None,
    {
        if shutdown_requested {
            Some(BuildError::ShutdownInProgress)
        } else {
            None
        }
    }

    /// The decision after an attempt of `operation_name` failed with `error`
    /// after `took_nanos` nanoseconds: the error ends the loop when it is not
    /// retryable; the attempts or the time allowed running out end it with a
    /// retry-limit error; otherwise the loop asks the backoff for a delay.
    pub fn after_failure(
        &self,
        context: &mut RecoveryContext,
        operation_name: &str,
        error: BuildError,
        took_nanos: u128,
    ) -> (r: RetryStep)
        requires
            old(context).elapsed_time + took_nanos <= MAX_DURATION_NANOS,
        ensures
            describes(error, final(context).error_message@),
            final(context).is_retryable == retryable(error),
            final(context).elapsed_time == old(context).elapsed_time + took_nanos,
            final(context).attempt_count == old(context).attempt_count,
            final(context).operation == old(context).operation,
            final(context).package_name == old(context).package_name,
            !retryable(error) ==> r == RetryStep::Stop(error),
            retryable(error) && old(context).attempt_count >= self.max_attempts ==> (r matches RetryStep::Stop(
                BuildError::MaxRetriesExceeded { operation: o, attempts: a },
            ) && o@ == operation_name@ && a == self.max_attempts),
            retryable(error) && old(context).attempt_count < self.max_attempts ==> (match self.max_elapsed_time {
                Some(limit) => if final(context).elapsed_time >= limit {
                    r matches RetryStep::Stop(BuildError::MaxRetriesExceeded { operation: o, attempts: a })
                        && o@ == operation_name@ && a == self.max_attempts
                } else {
                    r == RetryStep::Backoff
                },
                None => r == RetryStep::Backoff,
            }),
    {
        context.error_message = error.to_text();
        context.is_retryable = error.is_retryable();
        context.elapsed_time = context.elapsed_time + took_nanos;
        if !error.is_retryable() {
            return RetryStep::Stop(error);
        }
        if context.attempt_count >= self.max_attempts {
            return RetryStep::Stop(BuildError::max_retries_exceeded(operation_name, self.max_attempts));
        }
        match self.max_elapsed_time {
            Some(limit) => {
                if context.elapsed_time >= limit {
                    return RetryStep::Stop(
                        BuildError::max_retries_exceeded(operation_name, self.max_attempts),
                    );
                }
            },
            None => {},
        }
        RetryStep::Backoff
    }

    /// The decision once the backoff answered: without a delay (the backoff
    /// is exhausted) the loop ends with a retry-limit error; with one, the
    /// next attempt is counted.
    pub fn after_backoff(
        &self,
        context: &mut RecoveryContext,
        operation_name: &str,
        delay_given: bool,
    ) -> (r: Option<BuildError>)
        requires
            old(context).attempt_count < self.max_attempts,
        ensures
            !delay_given ==> (r matches Some(BuildError::MaxRetriesExceeded { operation: o, attempts: a })
                && o@ == operation_name@ && a == self.max_attempts) && *final(context) == *old(context),
            delay_given ==> r is None && *final(context) == (RecoveryContext {
                attempt_count: (old(context).attempt_count + 1) as u32,
                ..*old(context)
            }),
    {
        if !delay_given {
            return Some(BuildError::max_retries_exceeded(operation_name, self.max_attempts));
        }
        context.increment_attempt();
        None
    }
}

/// The name under which a package operation is retried: `package:operation`.
pub fn package_operation_name(package_name: &str, operation_name: &str) -> (r: String)
    ensures
        r@ == package_name@ + ":"@ + operation_name@,
{
    let mut r = owned(package_name);
    r.append(":");
    r.append(operation_name);
    r
}


/// A failure that retrying cannot mend is never retried.
pub proof fn law_non_retryable_not_retried(strategy: BuildRecoveryStrategy, max_attempts: u32, message: Seq<char>, attempt_count: u32)
    ensures
        !(recovery_action(strategy, max_attempts, message, false, attempt_count) is Retry),
        !(recovery_action(strategy, max_attempts, message, false, attempt_count) is CleanAndRetry),
{
}

/// Once the attempts are used up, nothing is retried.
pub proof fn law_attempts_bounded(strategy: BuildRecoveryStrategy, max_attempts: u32, message: Seq<char>, is_retryable: bool, attempt_count: u32)
    requires
        attempt_count >= max_attempts,
    ensures
        !(recovery_action(strategy, max_attempts, message, is_retryable, attempt_count) is Retry),
        !(recovery_action(strategy, max_attempts, message, is_retryable, attempt_count) is CleanAndRetry),
{
}

/// A failure that tells of a shutdown or cancellation aborts, whatever the
/// strategy.
pub proof fn law_shutdown_aborts(strategy: BuildRecoveryStrategy, max_attempts: u32, message: Seq<char>, is_retryable: bool, attempt_count: u32)
    requires
        tells_of_abort(message),
    ensures
        recovery_action(strategy, max_attempts, message, is_retryable, attempt_count) == RecoveryAction::Abort,
{
}
} // verus!
