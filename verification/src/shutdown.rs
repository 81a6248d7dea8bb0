//! Reasons and signals of a shutdown, and the outcome of the cleanup it runs.
use vstd::prelude::*;
use std::time::Duration;
use crate::build_error::{describes, BuildError};
use crate::docker_error::{duration_debug, duration_debug_text};
use crate::text::{decimal, join, owned, push_decimal};

verus! {

/// Why the build shuts down.
#[derive(Debug, Clone, Copy, PartialEq, Eq, Structural)]
pub enum ShutdownReason {
    /// User initiated shutdown (Ctrl-C)
    UserRequest,
    /// Timeout exceeded
    Timeout,
    /// Fatal error occurred
    FatalError,
    /// External shutdown request
    External,
}

/// How a shutdown reason reads.
pub open spec fn reason_text(r: ShutdownReason) -> Seq<char> {
    match r {
        ShutdownReason::UserRequest => "user request"@,
        ShutdownReason::Timeout => "timeout"@,
        ShutdownReason::FatalError => "fatal error"@,
        ShutdownReason::External => "external request"@,
    }
}

impl ShutdownReason {
    /// How the reason reads.
    pub fn to_text(&self) -> (r: String)
        ensures
            r@ == reason_text(*self),
    {
        match self {
            ShutdownReason::UserRequest => owned("user request"),
            ShutdownReason::Timeout => owned("timeout"),
            ShutdownReason::FatalError => owned("fatal error"),
            ShutdownReason::External => owned("external request"),
        }
    }
}

/// A shutdown request: its reason and an optional message.
#[derive(Debug, Clone, PartialEq, Eq)]
pub struct ShutdownSignal {
    /// Why the build shuts down
    pub reason: ShutdownReason,
    /// What to tell about it
    pub message: Option<String>,
}

impl ShutdownSignal {
    /// The user asked for the shutdown (Ctrl-C).
    pub fn user_request() -> (r: Self)
        ensures
            r.reason == ShutdownReason::UserRequest,
            r.message matches Some(m) && m@ == "Shutdown requested by user (Ctrl-C)"@,
    {
        ShutdownSignal {
            reason: ShutdownReason::UserRequest,
            message: Some(owned("Shutdown requested by user (Ctrl-C)")),
        }
    }

    /// A timeout of `duration` ran out; the message names the duration as
    /// `Duration`'s `Debug` writes it.
    pub fn timeout(duration: Duration) -> (r: Self)
        ensures
            r.reason == ShutdownReason::Timeout,
            r.message matches Some(m) && m@ == "Shutdown due to timeout ("@ + duration_debug_text(duration)
                + ")"@,
    {
        let mut m = owned("Shutdown due to timeout (");
        let d = duration_debug(&duration);
        m.append(d.as_str());
        m.append(")");
        ShutdownSignal { reason: ShutdownReason::Timeout, message: Some(m) }
    }

    /// A fatal error, described by `error`, forces the shutdown.
    pub fn fatal_error(error: &str) -> (r: Self)
        ensures
            r.reason == ShutdownReason::FatalError,
            r.message matches Some(m) && m@ == "Shutdown due to fatal error: "@ + error@,
    {
        let mut m = owned("Shutdown due to fatal error: ");
        m.append(error);
        ShutdownSignal { reason: ShutdownReason::FatalError, message: Some(m) }
    }

    /// Someone else asked for the shutdown.
    pub fn external(message: Option<String>) -> (r: Self)
        ensures
            r.reason == ShutdownReason::External,
            r.message == message,
    {
        ShutdownSignal { reason: ShutdownReason::External, message }
    }
}

/// The check made around waits and operations: a requested shutdown is an error.
pub fn shutdown_gate(shutdown_requested: bool) -> (r: Result<(), BuildError>)
    ensures
        shutdown_requested ==> r == Err::<(), BuildError>(BuildError::ShutdownInProgress),
        !shutdown_requested ==> r is Ok,
{
    if shutdown_requested {
        Err(BuildError::ShutdownInProgress)
    } else {
        Ok(())
    }
}

/// The errors among the results of the cleanup operations, in order.
pub open spec fn failures(rs: Seq<Result<(), BuildError>>) -> Seq<BuildError>
    decreases rs.len(),
{
    if rs.len() == 0 {
        Seq::empty()
    } else {
        match rs.last() {
            Ok(_) => failures(rs.drop_last()),
            Err(e) => failures(rs.drop_last()).push(e),
        }
    }
}

/// The outcome of running the cleanup operations, given their results: success
/// when none failed, else a recovery failure that counts the failures and
/// joins their messages with ", ".
pub fn cleanup_outcome(results: Vec<Result<(), BuildError>>) -> (r: Result<(), BuildError>)
    ensures
        failures(results@).len() == 0 ==> r is Ok,
        failures(results@).len() > 0 ==> (r matches Err(BuildError::RecoveryFailed { reason }) && exists|msgs: Seq<Seq<char>>|
            #![trigger join(msgs, ", "@)]
            msgs.len() == failures(results@).len() && (forall|i: int|
                0 <= i < msgs.len() ==> describes(failures(results@)[i], #[trigger] msgs[i]))
                && reason@ == "Cleanup failed with "@ + decimal(failures(results@).len()) + " errors: "@
                + join(msgs, ", "@)),
{
    let mut messages: Vec<String> = Vec::new();
    let mut k: usize = 0;
    let ghost rs = results@;
    while k < results.len()
        invariant
            k <= results.len(),
            rs == results@,
            messages@.len() == failures(rs.subrange(0, k as int)).len(),
            messages@.len() <= k,
            forall|i: int|
                0 <= i < messages@.len() ==> describes(
                    failures(rs.subrange(0, k as int))[i],
                    #[trigger] messages@[i]@,
                ),
        decreases results.len() - k,
    {
        let ghost prefix = rs.subrange(0, k as int);
        let ghost next = rs.subrange(0, k + 1);
        assert(next.drop_last() =~= prefix);
        match &results[k] {
            Ok(()) => {},
            Err(e) => {
                let t = e.to_text();
                messages.push(t);
            },
        }
        k += 1;
    }
    assert(rs.subrange(0, rs.len() as int) =~= rs);
    if messages.len() == 0 {
        return Ok(());
    }
    let mut reason = owned("Cleanup failed with ");
    push_decimal(&mut reason, messages.len() as u64);
    reason.append(" errors: ");
    let joined = crate::text::join_strings(&messages, ", ");
    reason.append(joined.as_str());
    let ghost msgs = crate::text::views(messages@);
    assert(forall|i: int| 0 <= i < msgs.len() ==> msgs[i] == messages@[i]@);
    Err(BuildError::RecoveryFailed { reason })
}

} // verus!
