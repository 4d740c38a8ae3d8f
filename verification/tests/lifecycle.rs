use meminfo::errors::ConsistencyFault;
use meminfo::errors::FatalFault;
use meminfo::errors::FaultKind;
use meminfo::errors::PrivilegeError;
use meminfo::errors::ResourceError;
use meminfo::lifecycle::step;
use meminfo::lifecycle::unprivileged_group_name;
use meminfo::lifecycle::unprivileged_user_name;
use meminfo::lifecycle::Action;
use meminfo::lifecycle::CallOutcome;
use meminfo::lifecycle::Event;
use meminfo::lifecycle::Phase;

#[test]
fn starting_without_superuser_identity_is_fatal_before_any_stream_opens() {
    let (phase, action) = step(Phase::Unstarted, Event::Started { uid: 1000 });
    assert_eq!(phase, Phase::Failed);
    assert_eq!(
        action,
        Action::Abort(FatalFault::Privilege(PrivilegeError::NotSuperuser { uid: 1000 }))
    );
}

#[test]
fn the_happy_path_runs_start_open_downgrade_serve() {
    let (phase, action) = step(Phase::Unstarted, Event::Started { uid: 0 });
    assert_eq!((phase, action), (Phase::OpeningStreams, Action::OpenStreams));

    let (phase, action) = step(phase, Event::StreamsOpened { error: None });
    assert_eq!((phase, action), (Phase::PrivilegedOpen, Action::ResolveIdentities));

    let (phase, action) = step(
        phase,
        Event::IdentitiesResolved { user_found: true, group_found: true },
    );
    assert_eq!((phase, action), (Phase::IdentityKnown, Action::SetGroupIdentity));

    let (phase, action) = step(phase, Event::GroupSet { ok: true });
    assert_eq!((phase, action), (Phase::GroupDropped, Action::SetUserIdentity));

    let (phase, action) = step(phase, Event::UserSet { ok: true });
    assert_eq!((phase, action), (Phase::UserDropped, Action::ClearCapabilities));

    let (phase, action) = step(phase, Event::CapsCleared { ok: true });
    assert_eq!((phase, action), (Phase::Downgraded, Action::AwaitCall));

    let (phase, action) = step(phase, Event::CallArrived);
    assert_eq!((phase, action), (Phase::Serving, Action::Refresh));

    let (phase, action) = step(
        phase,
        Event::CallCompleted { outcome: CallOutcome::Succeeded },
    );
    assert_eq!((phase, action), (Phase::Serving, Action::AwaitCall));
}

#[test]
fn a_stream_that_cannot_be_opened_is_fatal() {
    let (phase, action) = step(
        Phase::OpeningStreams,
        Event::StreamsOpened { error: Some(ResourceError::OpenFlags) },
    );
    assert_eq!(phase, Phase::Failed);
    assert_eq!(action, Action::Abort(FatalFault::Resource(ResourceError::OpenFlags)));
}

#[test]
fn a_missing_unprivileged_identity_is_fatal() {
    let (phase, action) = step(
        Phase::PrivilegedOpen,
        Event::IdentitiesResolved { user_found: false, group_found: true },
    );
    assert_eq!(phase, Phase::Failed);
    assert_eq!(action, Action::Abort(FatalFault::Privilege(PrivilegeError::UserMissing)));

    let (phase, action) = step(
        Phase::PrivilegedOpen,
        Event::IdentitiesResolved { user_found: true, group_found: false },
    );
    assert_eq!(phase, Phase::Failed);
    assert_eq!(action, Action::Abort(FatalFault::Privilege(PrivilegeError::GroupMissing)));
}

#[test]
fn failed_downgrade_steps_are_fatal() {
    let (phase, action) = step(Phase::IdentityKnown, Event::GroupSet { ok: false });
    assert_eq!(phase, Phase::Failed);
    assert_eq!(action, Action::Abort(FatalFault::Privilege(PrivilegeError::SetGroupFailed)));

    let (phase, action) = step(Phase::GroupDropped, Event::UserSet { ok: false });
    assert_eq!(phase, Phase::Failed);
    assert_eq!(action, Action::Abort(FatalFault::Privilege(PrivilegeError::SetUserFailed)));

    let (phase, action) = step(Phase::UserDropped, Event::CapsCleared { ok: false });
    assert_eq!(phase, Phase::Failed);
    assert_eq!(action, Action::Abort(FatalFault::Privilege(PrivilegeError::ClearCapsFailed)));
}

#[test]
fn a_failed_call_is_logged_and_serving_continues() {
    let (phase, action) = step(
        Phase::Serving,
        Event::CallCompleted { outcome: CallOutcome::CallFailed },
    );
    assert_eq!((phase, action), (Phase::Serving, Action::AwaitCall));
}

#[test]
fn a_fatal_refresh_outcome_aborts_the_service() {
    let fault = ConsistencyFault { pfn: 7, kind: FaultKind::SharedLowRefCount };
    let (phase, action) = step(
        Phase::Serving,
        Event::CallCompleted { outcome: CallOutcome::Consistency(fault) },
    );
    assert_eq!(phase, Phase::Failed);
    assert_eq!(action, Action::Abort(FatalFault::Consistency(fault)));

    let (phase, action) = step(
        Phase::Serving,
        Event::CallCompleted { outcome: CallOutcome::Resource(ResourceError::ReadCounts) },
    );
    assert_eq!(phase, Phase::Failed);
    assert_eq!(action, Action::Abort(FatalFault::Resource(ResourceError::ReadCounts)));
}

#[test]
fn events_out_of_protocol_are_ignored() {
    let (phase, action) = step(Phase::Serving, Event::Started { uid: 0 });
    assert_eq!((phase, action), (Phase::Serving, Action::Ignore));

    let (phase, action) = step(Phase::Unstarted, Event::CallArrived);
    assert_eq!((phase, action), (Phase::Unstarted, Action::Ignore));
}

#[test]
fn the_fixed_unprivileged_identity_is_nobody_nogroup() {
    assert_eq!(unprivileged_user_name(), "nobody");
    assert_eq!(unprivileged_group_name(), "nogroup");
}
