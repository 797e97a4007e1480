//! The life of one temporary macvlan interface: whether this process owns it,
//! the lease it holds, how its removal is retried, and how a removal failure is
//! reported beside the outcome of the operation that used the interface.

use vstd::prelude::*;
use crate::error::{text_of, SrunError};
use crate::net::dhcp::DhcpInfo;
use crate::text::owned;

verus! {

/// How many times a session tries to delete its interface before giving up.
pub const CLEANUP_ATTEMPTS: u32 = 3;

/// How many times a deferred removal (for a session dropped while it still
/// owned its interface) tries to delete the interface.
pub const DEFERRED_CLEANUP_ATTEMPTS: u32 = 5;

/// The pause between two deletion attempts, in milliseconds.
pub const CLEANUP_RETRY_PAUSE_MS: u64 = 100;

/// One temporary interface: its name, the lease obtained on it, and whether
/// this session created it and has not yet removed it.
pub struct MacvlanSession {
    pub name: String,
    pub lease: Option<DhcpInfo>,
    pub active: bool,
}

/// What to do after one deletion attempt of a session's interface.
pub enum CleanupStep {
    /// The interface is gone; the session no longer owns anything.
    Done,
    /// Pause, then try again.
    Retry,
    /// Give up and report this error.
    Failed(SrunError),
}

/// What to do after one deletion attempt of a deferred removal.
pub enum DeferredStep {
    /// Nothing more to do.
    Stop,
    /// The interface is not there (yet): pause and look again.
    Retry,
    /// The removal failed; log this error and stop.
    Report(SrunError),
}

/// Whether a deletion outcome means the interface is gone: deleted now, or
/// already absent.
pub open spec fn is_gone(outcome: Result<(), SrunError>) -> bool {
    outcome is Ok || outcome matches Err(SrunError::InterfaceNotFound(_))
}

fn gone(outcome: &Result<(), SrunError>) -> (r: bool)
    ensures
        r == is_gone(*outcome),
{
    match outcome {
        Ok(()) => true,
        Err(SrunError::InterfaceNotFound(_)) => true,
        Err(_) => false,
    }
}

impl MacvlanSession {
    /// A session for an interface about to be created under `name`: it owns
    /// the name and holds no lease yet.
    pub fn new(name: String) -> (r: Self)
        ensures
            r.name == name,
            r.lease is None,
            r.active,
    {
        MacvlanSession { name, lease: None, active: true }
    }

    /// Gives up ownership: creating the interface failed, so the name may
    /// belong to an interface that this session must never delete.
    pub fn disown(&mut self)
        ensures
            !final(self).active,
            final(self).name == old(self).name,
            final(self).lease == old(self).lease,
    {
        self.active = false;
    }

    /// Records the lease obtained on the interface.
    pub fn record_lease(&mut self, lease: DhcpInfo)
        ensures
            final(self).lease == Some(lease),
            final(self).name == old(self).name,
            final(self).active == old(self).active,
    {
        self.lease = Some(lease);
    }

    /// Whether the interface still has to be removed.
    pub fn cleanup_needed(&self) -> (r: bool)
        ensures
            r == self.active,
    {
        self.active
    }

    /// The leased address; a session without a lease is a DHCP failure.
    pub fn session_ip(&self) -> (r: Result<u32, SrunError>)
        ensures
            match self.lease {
                Some(l) => r == Ok::<u32, SrunError>(l.ip),
                None => r matches Err(SrunError::Dhcp(m)) && m@ == "temporary interface has no DHCP lease"@,
            },
    {
        match &self.lease {
            Some(l) => Ok(l.ip),
            None => Err(SrunError::Dhcp(owned("temporary interface has no DHCP lease"))),
        }
    }

    /// Takes the outcome of deletion attempt number `attempt` (counted from 1):
    /// an interface that is gone ends the session's ownership; another error is
    /// retried until the last attempt, where it is the cleanup's error.
    pub fn after_delete_attempt(&mut self, attempt: u32, outcome: Result<(), SrunError>) -> (r: CleanupStep)
        requires
            1 <= attempt <= CLEANUP_ATTEMPTS,
        ensures
            final(self).name == old(self).name,
            final(self).lease == old(self).lease,
            is_gone(outcome) ==> (r is Done && !final(self).active),
            !is_gone(outcome) ==> final(self).active == old(self).active,
            !is_gone(outcome) && attempt < CLEANUP_ATTEMPTS ==> r is Retry,
            !is_gone(outcome) && attempt == CLEANUP_ATTEMPTS ==> (r matches CleanupStep::Failed(e)
                && outcome == Err::<(), SrunError>(e)),
    {
        if gone(&outcome) {
            self.active = false;
            return CleanupStep::Done;
        }
        if attempt < CLEANUP_ATTEMPTS {
            CleanupStep::Retry
        } else {
            match outcome {
                Err(e) => CleanupStep::Failed(e),
                Ok(()) => CleanupStep::Done,
            }
        }
    }
}

/// After deferred deletion attempt number `attempt` (counted from 0): success
/// stops; an interface not found yet (its creation may still be completing) is
/// looked for again until the last attempt; any other error is reported.
pub fn deferred_cleanup_step(attempt: u32, outcome: Result<(), SrunError>) -> (r: DeferredStep)
    requires
        attempt < DEFERRED_CLEANUP_ATTEMPTS,
    ensures
        outcome is Ok ==> r is Stop,
        (outcome matches Err(SrunError::InterfaceNotFound(_))) ==> if attempt + 1 < DEFERRED_CLEANUP_ATTEMPTS {
            r is Retry
        } else {
            r is Stop
        },
        !is_gone(outcome) ==> (r matches DeferredStep::Report(e) && outcome == Err::<(), SrunError>(e)),
{
    match outcome {
        Ok(()) => DeferredStep::Stop,
        Err(SrunError::InterfaceNotFound(_)) => if attempt + 1 < DEFERRED_CLEANUP_ATTEMPTS {
            DeferredStep::Retry
        } else {
            DeferredStep::Stop
        },
        Err(e) => DeferredStep::Report(e),
    }
}

/// A removal of a stale interface: one that is gone is fine, any other error
/// stops the sweep.
pub fn stale_removal(outcome: Result<(), SrunError>) -> (r: Result<(), SrunError>)
    ensures
        is_gone(outcome) ==> r is Ok,
        !is_gone(outcome) ==> r == outcome,
{
    match outcome {
        Ok(()) => Ok(()),
        Err(SrunError::InterfaceNotFound(_)) => Ok(()),
        Err(e) => Err(e),
    }
}

/// The error that reports an operation and a cleanup that both failed.
pub fn combine_operation_and_cleanup_errors(operation: &'static str, primary_error: SrunError, cleanup_error: SrunError) -> (r: SrunError)
    ensures
        r matches SrunError::OperationAndCleanupFailed { operation: o, primary, cleanup } && o == operation
            && primary@ == text_of(primary_error) && cleanup@ == text_of(cleanup_error),
{
    let primary = primary_error.describe();
    let cleanup = cleanup_error.describe();
    SrunError::OperationAndCleanupFailed { operation, primary, cleanup }
}

/// The outcome of an operation on a temporary interface once the interface's
/// removal has been tried: a successful removal leaves the operation's result;
/// a failed one turns success into `CleanupFailed` and a failure into the
/// combined error, so that a leftover interface is never hidden.
pub fn finish_session<T>(cleanup: Result<(), SrunError>, result: Result<T, SrunError>, operation: &'static str) -> (r: Result<T, SrunError>)
    ensures
        match (cleanup, result) {
            (Ok(()), _) => r == result,
            (Err(c), Ok(_)) => r matches Err(SrunError::CleanupFailed { operation: o, details }) && o == operation
                && details@ == text_of(c),
            (Err(c), Err(p)) => r matches Err(SrunError::OperationAndCleanupFailed { operation: o, primary, cleanup: cd })
                && o == operation && primary@ == text_of(p) && cd@ == text_of(c),
        },
{
    match cleanup {
        Ok(()) => result,
        Err(cleanup_error) => match result {
            Ok(_) => Err(SrunError::CleanupFailed { operation, details: cleanup_error.describe() }),
            Err(primary_error) => Err(combine_operation_and_cleanup_errors(operation, primary_error, cleanup_error)),
        },
    }
}

/// The error of a failed setup once the partial interface's removal has been
/// tried: the setup's own error, or the combined error if removal failed too.
pub fn finish_failed_session(cleanup: Result<(), SrunError>, primary_error: SrunError, operation: &'static str) -> (r: SrunError)
    ensures
        match cleanup {
            Ok(()) => r == primary_error,
            Err(c) => r matches SrunError::OperationAndCleanupFailed { operation: o, primary, cleanup: cd }
                && o == operation && primary@ == text_of(primary_error) && cd@ == text_of(c),
        },
{
    match cleanup {
        Ok(()) => primary_error,
        Err(cleanup_error) => combine_operation_and_cleanup_errors(operation, primary_error, cleanup_error),
    }
}

} // verus!
