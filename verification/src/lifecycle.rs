//! The privileged service lifecycle, as an explicit state machine.
//!
//! The lifecycle is linear and one-shot: validate that the process starts
//! as the superuser, open both protected kernel streams, resolve the
//! fixed unprivileged identity, set the group identity before the user
//! identity (the order matters: setting identity requires privilege that
//! is only held before the user switch), clear all three extended
//! capability sets, and only then serve inbound calls, one at a time.
//!
//! The host performs each [`Action`] (open, setuid, wait, refresh) and
//! reports what happened as the next [`Event`]; the machine decides every
//! transition, so the decision logic is verified even though the side
//! effects cannot be.

use vstd::prelude::*;

use crate::errors::ConsistencyFault;
use crate::errors::FatalFault;
use crate::errors::FormatError;
use crate::errors::PrivilegeError;
use crate::errors::ResourceError;

verus! {

/// The phase the service lifecycle is in.  The downgrade from privileged
/// to unprivileged runs through the intermediate phases in one fixed
/// order and is irreversible.
#[derive(Clone, Copy, Debug, PartialEq, Eq, Structural)]
pub enum Phase {
    /// The process identity has not been validated yet.
    Unstarted,
    /// The process is the superuser and is opening the protected streams.
    OpeningStreams,
    /// Both protected streams are open; the process still holds privilege.
    PrivilegedOpen,
    /// The fixed unprivileged user and group are resolved.
    IdentityKnown,
    /// The process group identity is set to the unprivileged group.
    GroupDropped,
    /// The process user identity is set to the unprivileged user.
    UserDropped,
    /// All three extended capability sets are cleared: the downgrade is
    /// complete.
    Downgraded,
    /// The service accepts one inbound call at a time.
    Serving,
    /// A fatal fault ended the lifecycle; the process aborts.
    Failed,
}

/// How one inbound call ended.
#[derive(Clone, Copy, Debug, PartialEq, Eq, Structural)]
pub enum CallOutcome {
    /// The refresh succeeded and the response was returned.
    Succeeded,
    /// A protected stream could not be re-read mid-refresh: fatal, data
    /// integrity cannot be guaranteed from a torn read.
    Resource(ResourceError),
    /// The refresh rejected a malformed buffer: fatal.
    Format(FormatError),
    /// The refresh found a classification inconsistency: fatal.
    Consistency(ConsistencyFault),
    /// The call itself failed after the service reached steady state (the
    /// CallError case): the host logs it and serving continues.
    CallFailed,
}

/// What the host reports to the lifecycle machine.
#[derive(Clone, Copy, Debug, PartialEq, Eq, Structural)]
pub enum Event {
    /// The process started, with its user id.
    Started { uid: u32 },
    /// Opening the protected streams finished; `error` names the stream
    /// that could not be opened, if any.
    StreamsOpened { error: Option<ResourceError> },
    /// Resolving the fixed unprivileged identities finished.
    IdentitiesResolved { user_found: bool, group_found: bool },
    /// Setting the group identity finished.
    GroupSet { ok: bool },
    /// Setting the user identity finished.
    UserSet { ok: bool },
    /// Clearing the extended capability sets finished.
    CapsCleared { ok: bool },
    /// An inbound call arrived.
    CallArrived,
    /// The current call completed with the given outcome.
    CallCompleted { outcome: CallOutcome },
}

/// What the host must do next.
#[derive(Clone, Copy, Debug, PartialEq, Eq, Structural)]
pub enum Action {
    /// Open the two protected kernel streams.
    OpenStreams,
    /// Resolve the fixed unprivileged user and group by name.
    ResolveIdentities,
    /// Set the process group identity to the unprivileged group.
    SetGroupIdentity,
    /// Set the process user identity to the unprivileged user.
    SetUserIdentity,
    /// Clear the effective, inheritable and permitted capability sets.
    ClearCapabilities,
    /// Wait for the next inbound call.
    AwaitCall,
    /// Run one refresh cycle and answer the current call.
    Refresh,
    /// Abort the whole process with the given fatal fault.
    Abort(FatalFault),
    /// The event does not belong to the current phase: ignore it.
    Ignore,
}

/// The transition table of the lifecycle: from a phase and an event to
/// the next phase and the action the host must take.
pub open spec fn spec_step(phase: Phase, event: Event) -> (Phase, Action) {
    match (phase, event) {
        (Phase::Unstarted, Event::Started { uid }) => {
            if uid == 0 {
                (Phase::OpeningStreams, Action::OpenStreams)
            } else {
                (
                    Phase::Failed,
                    Action::Abort(FatalFault::Privilege(PrivilegeError::NotSuperuser { uid })),
                )
            }
        },
        (Phase::OpeningStreams, Event::StreamsOpened { error }) => {
            match error {
                None => (Phase::PrivilegedOpen, Action::ResolveIdentities),
                Some(e) => (Phase::Failed, Action::Abort(FatalFault::Resource(e))),
            }
        },
        (Phase::PrivilegedOpen, Event::IdentitiesResolved { user_found, group_found }) => {
            if !user_found {
                (Phase::Failed, Action::Abort(FatalFault::Privilege(PrivilegeError::UserMissing)))
            } else if !group_found {
                (Phase::Failed, Action::Abort(FatalFault::Privilege(PrivilegeError::GroupMissing)))
            } else {
                (Phase::IdentityKnown, Action::SetGroupIdentity)
            }
        },
        (Phase::IdentityKnown, Event::GroupSet { ok }) => {
            if ok {
                (Phase::GroupDropped, Action::SetUserIdentity)
            } else {
                (
                    Phase::Failed,
                    Action::Abort(FatalFault::Privilege(PrivilegeError::SetGroupFailed)),
                )
            }
        },
        (Phase::GroupDropped, Event::UserSet { ok }) => {
            if ok {
                (Phase::UserDropped, Action::ClearCapabilities)
            } else {
                (Phase::Failed, Action::Abort(FatalFault::Privilege(PrivilegeError::SetUserFailed)))
            }
        },
        (Phase::UserDropped, Event::CapsCleared { ok }) => {
            if ok {
                (Phase::Downgraded, Action::AwaitCall)
            } else {
                (
                    Phase::Failed,
                    Action::Abort(FatalFault::Privilege(PrivilegeError::ClearCapsFailed)),
                )
            }
        },
        (Phase::Downgraded, Event::CallArrived) => (Phase::Serving, Action::Refresh),
        (Phase::Serving, Event::CallArrived) => (Phase::Serving, Action::Refresh),
        (Phase::Serving, Event::CallCompleted { outcome }) => {
            match outcome {
                CallOutcome::Succeeded => (Phase::Serving, Action::AwaitCall),
                CallOutcome::Resource(e) => (
                    Phase::Failed,
                    Action::Abort(FatalFault::Resource(e)),
                ),
                CallOutcome::Format(e) => (Phase::Failed, Action::Abort(FatalFault::Format(e))),
                CallOutcome::Consistency(e) => (
                    Phase::Failed,
                    Action::Abort(FatalFault::Consistency(e)),
                ),
                CallOutcome::CallFailed => (Phase::Serving, Action::AwaitCall),
            }
        },
        _ => (phase, Action::Ignore),
    }
}

/// Decides one lifecycle transition.
///
/// In particular: a start as a non-superuser aborts with a
/// [`PrivilegeError`] before any stream is opened, and a failed call in
/// the serving phase keeps serving.
pub fn step(phase: Phase, event: Event) -> (r: (Phase, Action))
    ensures
        r == spec_step(phase, event),
        phase == Phase::Unstarted ==> (event matches Event::Started { uid } ==> (uid != 0 ==> r
            == ((
            Phase::Failed,
            Action::Abort(FatalFault::Privilege(PrivilegeError::NotSuperuser { uid })),
        )))),
        phase == Phase::Serving && event == (Event::CallCompleted {
            outcome: CallOutcome::CallFailed,
        }) ==> r == ((Phase::Serving, Action::AwaitCall)),
{
    match (phase, event) {
        (Phase::Unstarted, Event::Started { uid }) => {
            if uid == 0 {
                (Phase::OpeningStreams, Action::OpenStreams)
            } else {
                (
                    Phase::Failed,
                    Action::Abort(FatalFault::Privilege(PrivilegeError::NotSuperuser { uid })),
                )
            }
        },
        (Phase::OpeningStreams, Event::StreamsOpened { error }) => {
            match error {
                None => (Phase::PrivilegedOpen, Action::ResolveIdentities),
                Some(e) => (Phase::Failed, Action::Abort(FatalFault::Resource(e))),
            }
        },
        (Phase::PrivilegedOpen, Event::IdentitiesResolved { user_found, group_found }) => {
            if !user_found {
                (Phase::Failed, Action::Abort(FatalFault::Privilege(PrivilegeError::UserMissing)))
            } else if !group_found {
                (Phase::Failed, Action::Abort(FatalFault::Privilege(PrivilegeError::GroupMissing)))
            } else {
                (Phase::IdentityKnown, Action::SetGroupIdentity)
            }
        },
        (Phase::IdentityKnown, Event::GroupSet { ok }) => {
            if ok {
                (Phase::GroupDropped, Action::SetUserIdentity)
            } else {
                (
                    Phase::Failed,
                    Action::Abort(FatalFault::Privilege(PrivilegeError::SetGroupFailed)),
                )
            }
        },
        (Phase::GroupDropped, Event::UserSet { ok }) => {
            if ok {
                (Phase::UserDropped, Action::ClearCapabilities)
            } else {
                (Phase::Failed, Action::Abort(FatalFault::Privilege(PrivilegeError::SetUserFailed)))
            }
        },
        (Phase::UserDropped, Event::CapsCleared { ok }) => {
            if ok {
                (Phase::Downgraded, Action::AwaitCall)
            } else {
                (
                    Phase::Failed,
                    Action::Abort(FatalFault::Privilege(PrivilegeError::ClearCapsFailed)),
                )
            }
        },
        (Phase::Downgraded, Event::CallArrived) => (Phase::Serving, Action::Refresh),
        (Phase::Serving, Event::CallArrived) => (Phase::Serving, Action::Refresh),
        (Phase::Serving, Event::CallCompleted { outcome }) => {
            match outcome {
                CallOutcome::Succeeded => (Phase::Serving, Action::AwaitCall),
                CallOutcome::Resource(e) => (
                    Phase::Failed,
                    Action::Abort(FatalFault::Resource(e)),
                ),
                CallOutcome::Format(e) => (Phase::Failed, Action::Abort(FatalFault::Format(e))),
                CallOutcome::Consistency(e) => (
                    Phase::Failed,
                    Action::Abort(FatalFault::Consistency(e)),
                ),
                CallOutcome::CallFailed => (Phase::Serving, Action::AwaitCall),
            }
        },
        _ => (phase, Action::Ignore),
    }
}

/// The name of the fixed unprivileged user the service downgrades to.
pub fn unprivileged_user_name() -> (r: &'static str)
    ensures
        r@ == "nobody"@,
{
    "nobody"
}

/// The name of the fixed unprivileged group the service downgrades to.
pub fn unprivileged_group_name() -> (r: &'static str)
    ensures
        r@ == "nogroup"@,
{
    "nogroup"
}

/// Law: serving is impossible before the downgrade has completed.  The
/// only phases from which a step can land in the serving phase are the
/// downgraded phase itself and the serving phase.
pub proof fn lemma_serving_needs_downgrade(phase: Phase, event: Event)
    ensures
        spec_step(phase, event).0 == Phase::Serving ==> (phase == Phase::Downgraded || phase
            == Phase::Serving),
{
}

/// Law: the downgrade is irreversible.  Once the lifecycle has left the
/// privileged phases, no event brings it back: from the downgraded,
/// serving and failed phases every step stays among those phases.
pub proof fn lemma_downgrade_irreversible(phase: Phase, event: Event)
    ensures
        (phase == Phase::Downgraded || phase == Phase::Serving || phase == Phase::Failed) ==> {
            let next = spec_step(phase, event).0;
            next == Phase::Downgraded || next == Phase::Serving || next == Phase::Failed
        },
{
}

} // verus!
