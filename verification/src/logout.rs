//! The logout decisions.
//!
//! Logout never touches the network.  With a token already cached in this
//! process it does nothing at all; otherwise it removes the stored
//! credential, after asking in interactive mode, and merely informs the user
//! when there is nothing to remove.

use vstd::prelude::*;

verus! {

/// What logout does next.
#[derive(Debug, PartialEq, Eq)]
pub enum LogoutStep {
    /// Leave everything as it is.
    DoNothing,
    /// No stored credential: print the informational message and exit clean.
    InformNothingStored,
    /// Ask the user to confirm removal.
    ConfirmRemoval,
    /// Delete the stored credential.
    RemoveCredential,
}

/// How a logout ends.
#[derive(Debug, PartialEq, Eq)]
pub enum LogoutOutcome {
    /// There was nothing to remove: success, not an error.
    NothingStored,
    /// The user declined the removal.
    Skipped,
    /// The credential was removed.
    Removed,
    /// The credential file could not be deleted.
    IoFailure,
}

/// The first logout decision, from what is cached and stored.
pub open spec fn logout_step_of(
    session_set: bool,
    stored_exists: bool,
    noninteractive: bool,
) -> LogoutStep {
    if session_set {
        LogoutStep::DoNothing
    } else if !stored_exists {
        LogoutStep::InformNothingStored
    } else if noninteractive {
        LogoutStep::RemoveCredential
    } else {
        LogoutStep::ConfirmRemoval
    }
}

/// Decides what logout does: nothing while a token is cached in-process;
/// with no stored credential only the informational message; otherwise
/// removal, preceded by a confirmation prompt in interactive mode.
///
/// In particular, when no stored credential exists no deletion is ever
/// decided, whatever the mode.
pub fn logout_begin(session_set: bool, stored_exists: bool, noninteractive: bool) -> (r:
    LogoutStep)
    ensures
        r == logout_step_of(session_set, stored_exists, noninteractive),
        !stored_exists ==> r != LogoutStep::RemoveCredential && r != LogoutStep::ConfirmRemoval,
{
    if session_set {
        LogoutStep::DoNothing
    } else if !stored_exists {
        LogoutStep::InformNothingStored
    } else if noninteractive {
        LogoutStep::RemoveCredential
    } else {
        LogoutStep::ConfirmRemoval
    }
}

/// Decides after the confirmation prompt: removal only on a yes; a decline
/// is a normal choice that leaves the credential in place.
pub fn logout_after_confirm(confirmed: bool) -> (r: LogoutStep)
    ensures
        confirmed ==> r == LogoutStep::RemoveCredential,
        !confirmed ==> r == LogoutStep::DoNothing,
{
    if confirmed {
        LogoutStep::RemoveCredential
    } else {
        LogoutStep::DoNothing
    }
}

/// Exit code owed for a logout outcome: only a failed deletion is fatal;
/// "nothing to remove" and a declined confirmation exit clean.
pub open spec fn logout_exit_code(o: LogoutOutcome) -> int {
    match o {
        LogoutOutcome::IoFailure => 1,
        _ => 0,
    }
}

impl LogoutOutcome {
    /// Exit code owed to the shell for this outcome.
    pub fn exit_code(&self) -> (r: i32)
        ensures
            r as int == logout_exit_code(*self),
    {
        match self {
            LogoutOutcome::IoFailure => 1,
            _ => 0,
        }
    }
}

} // verus!
