use std::sync::Mutex;

use niralis_session_worker::cgroup::{hex_id, parse_hex_id, parse_populated, parse_unified_cgroup};
use niralis_session_worker::invocation::{
    request_graceful_termination_invocation, InvocationBoundProvider, LINUX_SIGTERM,
};
use niralis_session_worker::logind::LogindSessionId;
use niralis_session_worker::payload_scope::{
    terminal_unit_state, valid_payload_cgroup, CgroupEmptyState, InvocationBackendError,
    InvocationOperation, InvocationUnitProperties, PayloadScopeError, PayloadScopeIdentity,
    PinnedInvocationUnit,
};
use niralis_session_worker::scope_launch::{
    classify_bus_error, classify_zbus_error, failed_preparation_error, prepare_step,
    BusErrorDescription, PrepareAction, PrepareEvent, PrepareStep, SystemdPayloadScopeManager,
};

/// What a recorded call addressed.
#[derive(Debug, Clone, PartialEq, Eq)]
struct Recorded {
    operation: InvocationOperation,
    invocation_id: String,
    object_path: Option<String>,
    signal: Option<i32>,
}

#[derive(Debug, Clone)]
enum Reply {
    Path(String),
    Done,
    Properties(InvocationUnitProperties),
    State(CgroupEmptyState),
    Fail(InvocationBackendError),
}

/// A provider that answers from a script and records every call.
struct Recorder {
    script: Mutex<Vec<(InvocationOperation, Reply)>>,
    calls: Mutex<Vec<Recorded>>,
}

impl Recorder {
    fn new(script: Vec<(InvocationOperation, Reply)>) -> Self {
        Recorder {
            script: Mutex::new(script),
            calls: Mutex::new(Vec::new()),
        }
    }

    fn answer(
        &self,
        operation: InvocationOperation,
        invocation_id: &str,
        object_path: Option<&str>,
        signal: Option<i32>,
    ) -> Reply {
        self.calls.lock().unwrap().push(Recorded {
            operation,
            invocation_id: invocation_id.to_owned(),
            object_path: object_path.map(str::to_owned),
            signal,
        });
        let mut script = self.script.lock().unwrap();
        assert!(!script.is_empty(), "unexpected call {operation:?}");
        let (expected, reply) = script.remove(0);
        assert_eq!(expected, operation);
        reply
    }

    fn operations(&self) -> Vec<InvocationOperation> {
        self.calls
            .lock()
            .unwrap()
            .iter()
            .map(|call| call.operation)
            .collect()
    }
}

impl InvocationBoundProvider for Recorder {
    fn resolve_by_invocation(&self, expected_invocation_id: &str) -> Result<String, InvocationBackendError> {
        match self.answer(InvocationOperation::ResolveByInvocation, expected_invocation_id, None, None) {
            Reply::Path(path) => Ok(path),
            Reply::Fail(error) => Err(error),
            other => panic!("wrong reply {other:?}"),
        }
    }

    fn ref_pinned_unit(&self, expected_invocation_id: &str, expected_object_path: &str) -> Result<(), InvocationBackendError> {
        match self.answer(
            InvocationOperation::RefPinnedUnit,
            expected_invocation_id,
            Some(expected_object_path),
            None,
        ) {
            Reply::Done => Ok(()),
            Reply::Fail(error) => Err(error),
            other => panic!("wrong reply {other:?}"),
        }
    }

    fn read_properties(
        &self,
        operation: InvocationOperation,
        expected_invocation_id: &str,
        expected_object_path: &str,
        _expected_unit_name: &str,
    ) -> Result<InvocationUnitProperties, InvocationBackendError> {
        match self.answer(operation, expected_invocation_id, Some(expected_object_path), None) {
            Reply::Properties(properties) => Ok(properties),
            Reply::Fail(error) => Err(error),
            other => panic!("wrong reply {other:?}"),
        }
    }

    fn kill_pinned_unit(
        &self,
        expected_invocation_id: &str,
        expected_object_path: &str,
        signal: i32,
    ) -> Result<(), InvocationBackendError> {
        match self.answer(
            InvocationOperation::KillPinnedUnit,
            expected_invocation_id,
            Some(expected_object_path),
            Some(signal),
        ) {
            Reply::Done => Ok(()),
            Reply::Fail(error) => Err(error),
            other => panic!("wrong reply {other:?}"),
        }
    }

    fn read_boundary_state(
        &self,
        expected_invocation_id: &str,
        expected_object_path: &str,
        _control_group: &str,
    ) -> Result<CgroupEmptyState, InvocationBackendError> {
        match self.answer(
            InvocationOperation::ReadBoundaryState,
            expected_invocation_id,
            Some(expected_object_path),
            None,
        ) {
            Reply::State(state) => Ok(state),
            Reply::Fail(error) => Err(error),
            other => panic!("wrong reply {other:?}"),
        }
    }

    fn unref_pinned_unit(&self, expected_invocation_id: &str, expected_object_path: &str) -> Result<(), InvocationBackendError> {
        match self.answer(
            InvocationOperation::UnrefPinnedUnit,
            expected_invocation_id,
            Some(expected_object_path),
            None,
        ) {
            Reply::Done => Ok(()),
            Reply::Fail(error) => Err(error),
            other => panic!("wrong reply {other:?}"),
        }
    }
}

const UNIT: &str = "niralis-payload-a.scope";
const INVOCATION: &str = "00112233445566778899aabbccddeeff";
const PATH_A: &str = "/org/freedesktop/systemd1/unit/a";
const CGROUP: &str = "/user.slice/user-1000.slice/niralis-payload-a.scope";

fn identity() -> PayloadScopeIdentity {
    PayloadScopeIdentity {
        unit_name: UNIT.to_owned(),
        invocation_id: INVOCATION.to_owned(),
        expected_uid: 1000,
        logind_session_id: LogindSessionId::new("c1".to_owned()).unwrap(),
    }
}

fn pinned() -> PinnedInvocationUnit {
    PinnedInvocationUnit {
        object_path: PATH_A.to_owned(),
        reference_held: true,
    }
}

fn running_properties() -> InvocationUnitProperties {
    InvocationUnitProperties {
        object_path: PATH_A.to_owned(),
        id: UNIT.to_owned(),
        invocation_id: INVOCATION.to_owned(),
        control_group: CGROUP.to_owned(),
        slice: "user-1000.slice".to_owned(),
        transient: true,
        active_state: "active".to_owned(),
        sub_state: "running".to_owned(),
    }
}

fn kill_script(kill: Reply) -> Vec<(InvocationOperation, Reply)> {
    vec![
        (
            InvocationOperation::ResolveByInvocation,
            Reply::Path(PATH_A.to_owned()),
        ),
        (
            InvocationOperation::ReadPropertiesAfterRef,
            Reply::Properties(running_properties()),
        ),
        (InvocationOperation::KillPinnedUnit, kill),
    ]
}

/// The only kill the running session can send goes to the pinned unit
/// object, with SIGTERM, and a failed kill is not retried by any other
/// means.
fn check_kill_goes_only_to_pinned_object() {
    let recorder = Recorder::new(kill_script(Reply::Fail(InvocationBackendError::Transport)));
    assert_eq!(
        request_graceful_termination_invocation(&recorder, &identity(), &pinned(), CGROUP),
        Err(PayloadScopeError::TransportFailure)
    );
    let calls = recorder.calls.lock().unwrap().clone();
    let kills: Vec<&Recorded> = calls
        .iter()
        .filter(|call| call.operation == InvocationOperation::KillPinnedUnit)
        .collect();
    assert_eq!(kills.len(), 1);
    assert_eq!(kills[0].object_path.as_deref(), Some(PATH_A));
    assert_eq!(kills[0].invocation_id, INVOCATION);
    assert_eq!(kills[0].signal, Some(LINUX_SIGTERM));
    assert_eq!(calls.last().unwrap().operation, InvocationOperation::KillPinnedUnit);
}

/// The scope manager used at run time holds no backend to choose: every
/// invocation-bound operation takes its provider from the caller, and the
/// scripted provider exists only in this test.
fn check_scripted_backend_not_selectable() {
    assert_eq!(std::mem::size_of::<SystemdPayloadScopeManager>(), 0);
    assert!(SystemdPayloadScopeManager.requires_supervisor_registration());
    let recorder = Recorder::new(kill_script(Reply::Done));
    recorder.script.lock().unwrap().push((
        InvocationOperation::ReadPropertiesAfterKill,
        Reply::Properties(running_properties()),
    ));
    assert_eq!(
        request_graceful_termination_invocation(&recorder, &identity(), &pinned(), CGROUP),
        Ok(())
    );
}

/// Running termination first resolves the invocation id; where the
/// invocation is gone it never falls back to a kill by name.
fn check_no_killunit_fallback() {
    let recorder = Recorder::new(vec![(
        InvocationOperation::ResolveByInvocation,
        Reply::Fail(InvocationBackendError::NoSuchUnit),
    )]);
    assert_eq!(
        request_graceful_termination_invocation(&recorder, &identity(), &pinned(), CGROUP),
        Err(PayloadScopeError::InvocationUnavailable)
    );
    assert_eq!(
        recorder.operations(),
        vec![InvocationOperation::ResolveByInvocation]
    );
    let moved = Recorder::new(vec![(
        InvocationOperation::ResolveByInvocation,
        Reply::Path("/org/freedesktop/systemd1/unit/b".to_owned()),
    )]);
    assert_eq!(
        request_graceful_termination_invocation(&moved, &identity(), &pinned(), CGROUP),
        Err(PayloadScopeError::UnitReplaced)
    );
    assert_eq!(moved.operations(), vec![InvocationOperation::ResolveByInvocation]);
}

fn check_scope_paths() {
    assert!(!valid_payload_cgroup(
        "/user.slice",
        1000,
        "niralis-payload-a.scope"
    ));
    assert!(!valid_payload_cgroup(
        "/user.slice/user-1000.slice",
        1000,
        "niralis-payload-a.scope"
    ));
    assert!(!valid_payload_cgroup(
        "/user.slice/user-1000.slice/session-3.scope",
        1000,
        "session-3.scope"
    ));
    assert!(valid_payload_cgroup(
        "/user.slice/user-1000.slice/niralis-payload-a.scope",
        1000,
        "niralis-payload-a.scope"
    ));
}

fn check_unified_membership() {
    assert_eq!(
        parse_unified_cgroup("0::/user.slice/a.scope\n").unwrap(),
        "/user.slice/a.scope"
    );
    assert!(parse_unified_cgroup("2:cpu:/legacy\n").is_err());
}

fn check_invocation_id_round_trip() {
    let value = "00112233445566778899aabbccddeeff";
    let bytes = parse_hex_id(value).unwrap();
    assert_eq!(hex_id(&bytes).as_deref(), Some(value));
    assert!(parse_hex_id("0011").is_none());
    assert!(parse_hex_id("zz112233445566778899aabbccddeeff").is_none());
}

fn check_populated_parser() {
    assert_eq!(parse_populated("frozen 0\npopulated 0\n"), Ok(0));
    assert_eq!(parse_populated("populated 1\nfrozen 0\n"), Ok(1));
    assert_eq!(
        parse_populated("frozen 0\n"),
        Err(PayloadScopeError::InvalidMembership)
    );
    assert_eq!(
        parse_populated("populated x\n"),
        Err(PayloadScopeError::InvalidMembership)
    );
    assert_eq!(
        parse_populated("populated 0\npopulated 0\n"),
        Err(PayloadScopeError::InvalidMembership)
    );
}

fn check_terminal_states() {
    assert!(terminal_unit_state("inactive", "dead"));
    assert!(terminal_unit_state("failed", "failed"));
    for state in [
        ("active", "running"),
        ("active", "exited"),
        ("activating", "start"),
        ("deactivating", "stop-sigterm"),
        ("inactive", "failed"),
    ] {
        assert!(!terminal_unit_state(state.0, state.1), "{state:?}");
    }
}

#[test]
fn payload_scope_manager_kill_unit_is_unrepresentable_in_running_provider() {
    check_kill_goes_only_to_pinned_object();
}

#[test]
fn payload_scope_scripted_backend_is_test_only_and_not_runtime_selectable() {
    check_scripted_backend_not_selectable();
}

#[test]
fn payload_scope_rejects_broad_or_wrong_scope_paths() {
    check_scope_paths();
}

#[test]
fn payload_scope_parses_only_unified_membership() {
    check_unified_membership();
}

#[test]
fn payload_scope_invocation_id_round_trips_as_dbus_bytes() {
    check_invocation_id_round_trip();
}

#[test]
fn payload_scope_running_termination_has_no_manager_killunit_fallback() {
    check_no_killunit_fallback();
}

#[test]
fn payload_scope_cgroup_events_parser_is_bounded_and_requires_unique_populated_state() {
    check_populated_parser();
}

#[test]
fn payload_scope_unit_terminal_states_are_explicit() {
    check_terminal_states();
}

#[test]
fn backend_failures_manager_kill_unit_is_unrepresentable_in_running_provider() {
    check_kill_goes_only_to_pinned_object();
}

#[test]
fn backend_failures_scripted_backend_is_test_only_and_not_runtime_selectable() {
    check_scripted_backend_not_selectable();
}

#[test]
fn validation_rejects_broad_or_wrong_scope_paths() {
    check_scope_paths();
}

#[test]
fn validation_parses_only_unified_membership() {
    check_unified_membership();
}

#[test]
fn validation_invocation_id_round_trips_as_dbus_bytes() {
    check_invocation_id_round_trip();
}

#[test]
fn validation_running_termination_has_no_manager_killunit_fallback() {
    check_no_killunit_fallback();
}

#[test]
fn validation_cgroup_events_parser_is_bounded_and_requires_unique_populated_state() {
    check_populated_parser();
}

#[test]
fn validation_unit_terminal_states_are_explicit() {
    check_terminal_states();
}

#[test]
fn bus_failures_are_classified_by_kind() {
    let io = zbus::Error::InputOutput(std::sync::Arc::new(std::io::Error::other("gone")));
    assert_eq!(classify_zbus_error(io), InvocationBackendError::BusDisconnected);
    let no_reply = zbus::Error::FDO(Box::new(zbus::fdo::Error::NoReply("late".into())));
    assert_eq!(
        classify_zbus_error(no_reply),
        InvocationBackendError::BusDisconnected
    );
    let no_owner = zbus::Error::FDO(Box::new(zbus::fdo::Error::NameHasNoOwner("x".into())));
    assert_eq!(
        classify_zbus_error(no_owner),
        InvocationBackendError::ServiceOwnerChanged
    );
    let other_fdo = zbus::Error::FDO(Box::new(zbus::fdo::Error::AccessDenied("no".into())));
    assert_eq!(classify_zbus_error(other_fdo), InvocationBackendError::Transport);
    assert_eq!(
        classify_zbus_error(zbus::Error::Unsupported),
        InvocationBackendError::Transport
    );
    let named = |name: &str| classify_bus_error(&BusErrorDescription::MethodError(name.to_owned()));
    assert_eq!(
        named("org.freedesktop.systemd1.NoSuchUnit"),
        InvocationBackendError::NoSuchUnit
    );
    assert_eq!(
        named("org.freedesktop.DBus.Error.UnknownObject"),
        InvocationBackendError::UnknownObject
    );
    assert_eq!(
        named("org.freedesktop.DBus.Error.NameHasNoOwner"),
        InvocationBackendError::ServiceOwnerChanged
    );
    assert_eq!(
        named("org.freedesktop.DBus.Error.NoReply"),
        InvocationBackendError::BusDisconnected
    );
    assert_eq!(
        named("org.freedesktop.DBus.Error.Failed"),
        InvocationBackendError::Transport
    );
}

#[test]
fn scope_preparation_runs_its_steps_in_order_and_stops_a_started_unit_on_failure() {
    let order = [
        PrepareStep::StartUnit,
        PrepareStep::AwaitStartJob,
        PrepareStep::ReadUnit,
        PrepareStep::CheckStartedScope,
        PrepareStep::CheckAuthoritativeCgroup,
        PrepareStep::CheckSoleMember,
        PrepareStep::CheckWorkerOutside,
        PrepareStep::CheckLauncherOutside,
        PrepareStep::PinInvocation,
    ];
    for pair in order.windows(2) {
        assert_eq!(prepare_step(pair[0], PrepareEvent::Passed), PrepareAction::Perform(pair[1]));
    }
    assert_eq!(
        prepare_step(PrepareStep::PinInvocation, PrepareEvent::Passed),
        PrepareAction::Finish
    );
    assert_eq!(
        prepare_step(
            PrepareStep::StartUnit,
            PrepareEvent::Failed(PayloadScopeError::StartFailed)
        ),
        PrepareAction::Fail(PayloadScopeError::StartFailed)
    );
    for step in &order[1..] {
        assert_eq!(
            prepare_step(*step, PrepareEvent::Failed(PayloadScopeError::WorkerInsideBoundary)),
            PrepareAction::StopUnitThenFail(PayloadScopeError::WorkerInsideBoundary)
        );
    }
    assert_eq!(
        failed_preparation_error(PayloadScopeError::InvalidIdentity, true),
        PayloadScopeError::InvalidIdentity
    );
    assert_eq!(
        failed_preparation_error(PayloadScopeError::InvalidIdentity, false),
        PayloadScopeError::CleanupFailed
    );
}
