use std::collections::VecDeque;
use std::sync::Mutex;

use niralis_session_worker::invocation::{
    boundary_appears_terminal, graceful_step, pin_invocation_unit, prove_empty_boundary,
    release_request, GracefulStage, ProviderAnswer, ProviderNext, ProviderRequest,
    prove_precommit_disappearance, release_pin, request_graceful_termination_invocation,
    InvocationBoundProvider, ProcessCgroupReader, LINUX_SIGTERM,
};
use niralis_session_worker::logind::LogindSessionId;
use niralis_session_worker::payload_scope::{
    CgroupEmptyState, InvocationBackendError, InvocationOperation, InvocationUnitProperties,
    PayloadScopeError, PayloadScopeIdentity, PinnedInvocationUnit,
};
use niralis_session_worker::termination::LeaderExit;

const INVOCATION_A: &str = "00112233445566778899aabbccddeeff";
const INVOCATION_B: &str = "ffeeddccbbaa99887766554433221100";
const UNIT_NAME: &str = "niralis-payload-00112233445566778899aabbccddeeff.scope";
const CONTROL_GROUP: &str =
    "/user.slice/user-1000.slice/niralis-payload-00112233445566778899aabbccddeeff.scope";

fn path_a() -> String {
    "/org/freedesktop/systemd1/unit/path_a".to_owned()
}

fn path_b() -> String {
    "/org/freedesktop/systemd1/unit/path_b".to_owned()
}

fn identity_a() -> PayloadScopeIdentity {
    PayloadScopeIdentity {
        unit_name: UNIT_NAME.into(),
        invocation_id: INVOCATION_A.into(),
        expected_uid: 1000,
        logind_session_id: LogindSessionId::new("fixture-session".into()).unwrap(),
    }
}

fn properties_a() -> InvocationUnitProperties {
    InvocationUnitProperties {
        object_path: path_a(),
        id: UNIT_NAME.into(),
        invocation_id: INVOCATION_A.into(),
        control_group: CONTROL_GROUP.into(),
        slice: "user-1000.slice".into(),
        transient: true,
        active_state: "active".into(),
        sub_state: "running".into(),
    }
}

fn terminal_properties_a() -> InvocationUnitProperties {
    InvocationUnitProperties {
        active_state: "inactive".into(),
        sub_state: "dead".into(),
        ..properties_a()
    }
}

#[derive(Debug)]
enum ScriptedInvocationResponse {
    Success,
    Resolved(String),
    Properties(InvocationUnitProperties),
    BoundaryState(CgroupEmptyState),
    NoSuchUnit,
    UnknownObject,
    BusDisconnected,
    ServiceOwnerChanged,
    TransportFailure,
    BoundaryNotEmpty,
    CgroupIoFailure,
    UnrefFailure,
}

#[derive(Debug)]
struct ScriptedInvocationStep {
    expected_operation: InvocationOperation,
    expected_invocation_id: String,
    expected_object_path: Option<String>,
    expected_unit_name: Option<String>,
    response: ScriptedInvocationResponse,
}

impl ScriptedInvocationStep {
    fn new(operation: InvocationOperation, response: ScriptedInvocationResponse) -> Self {
        let reads_properties = matches!(
            operation,
            InvocationOperation::ReadPropertiesAfterRef
                | InvocationOperation::ReadPropertiesAfterKill
                | InvocationOperation::ReadPropertiesAfterObserver
                | InvocationOperation::ReadPropertiesDuringEmptyProof
                | InvocationOperation::ReadPropertiesDuringCleanup
        );
        Self {
            expected_operation: operation,
            expected_invocation_id: INVOCATION_A.into(),
            expected_object_path: if operation != InvocationOperation::ResolveByInvocation {
                Some(path_a())
            } else {
                None
            },
            expected_unit_name: if reads_properties {
                Some(UNIT_NAME.into())
            } else {
                None
            },
            response,
        }
    }
}

struct ScriptedInvocationBackend {
    steps: Mutex<VecDeque<ScriptedInvocationStep>>,
}

impl ScriptedInvocationBackend {
    fn new(steps: Vec<ScriptedInvocationStep>) -> Self {
        Self {
            steps: Mutex::new(steps.into()),
        }
    }

    fn consume(
        &self,
        operation: InvocationOperation,
        invocation_id: &str,
        object_path: Option<&str>,
        unit_name: Option<&str>,
    ) -> ScriptedInvocationResponse {
        let mut steps = self.steps.lock().unwrap();
        let expected = steps.pop_front().unwrap_or_else(|| {
            panic!(
                "unexpected invocation operation with no scripted step: observed={operation:?}({object_path:?})"
            )
        });
        assert_eq!(
            expected.expected_operation, operation,
            "scripted invocation operation out of order\nexpected: {:?}({:?})\nobserved: {:?}({:?})",
            expected.expected_operation, expected.expected_object_path, operation, object_path
        );
        assert_eq!(expected.expected_invocation_id, invocation_id);
        assert_eq!(expected.expected_object_path.as_deref(), object_path);
        assert_eq!(expected.expected_unit_name.as_deref(), unit_name);
        expected.response
    }

    fn assert_consumed(&self) {
        let steps = self.steps.lock().unwrap();
        assert!(
            steps.is_empty(),
            "scripted invocation steps left unconsumed: {steps:#?}"
        );
    }

    /// The observer the running session would create; its wake-up is
    /// immediate.
    fn create_boundary_observer(&self, invocation_id: &str, object_path: &str) -> Result<(), InvocationBackendError> {
        match self.consume(
            InvocationOperation::CreateBoundaryObserver,
            invocation_id,
            Some(object_path),
            None,
        ) {
            ScriptedInvocationResponse::Success => Ok(()),
            response => Err(response_error(response)),
        }
    }
}

fn response_error(response: ScriptedInvocationResponse) -> InvocationBackendError {
    match response {
        ScriptedInvocationResponse::NoSuchUnit => InvocationBackendError::NoSuchUnit,
        ScriptedInvocationResponse::UnknownObject => InvocationBackendError::UnknownObject,
        ScriptedInvocationResponse::BusDisconnected => InvocationBackendError::BusDisconnected,
        ScriptedInvocationResponse::ServiceOwnerChanged => {
            InvocationBackendError::ServiceOwnerChanged
        }
        ScriptedInvocationResponse::TransportFailure => InvocationBackendError::Transport,
        ScriptedInvocationResponse::BoundaryNotEmpty => InvocationBackendError::BoundaryNotEmpty,
        ScriptedInvocationResponse::CgroupIoFailure => InvocationBackendError::CgroupIo,
        ScriptedInvocationResponse::UnrefFailure => InvocationBackendError::Transport,
        response => panic!("script response has wrong type for operation: {response:?}"),
    }
}

impl InvocationBoundProvider for ScriptedInvocationBackend {
    fn resolve_by_invocation(&self, expected_invocation_id: &str) -> Result<String, InvocationBackendError> {
        match self.consume(
            InvocationOperation::ResolveByInvocation,
            expected_invocation_id,
            None,
            None,
        ) {
            ScriptedInvocationResponse::Resolved(path) => Ok(path),
            response => Err(response_error(response)),
        }
    }

    fn ref_pinned_unit(&self, expected_invocation_id: &str, expected_object_path: &str) -> Result<(), InvocationBackendError> {
        match self.consume(
            InvocationOperation::RefPinnedUnit,
            expected_invocation_id,
            Some(expected_object_path),
            None,
        ) {
            ScriptedInvocationResponse::Success => Ok(()),
            response => Err(response_error(response)),
        }
    }

    fn read_properties(
        &self,
        operation: InvocationOperation,
        expected_invocation_id: &str,
        expected_object_path: &str,
        expected_unit_name: &str,
    ) -> Result<InvocationUnitProperties, InvocationBackendError> {
        match self.consume(
            operation,
            expected_invocation_id,
            Some(expected_object_path),
            Some(expected_unit_name),
        ) {
            ScriptedInvocationResponse::Properties(properties) => Ok(properties),
            response => Err(response_error(response)),
        }
    }

    fn kill_pinned_unit(
        &self,
        expected_invocation_id: &str,
        expected_object_path: &str,
        signal: i32,
    ) -> Result<(), InvocationBackendError> {
        assert_eq!(signal, LINUX_SIGTERM);
        match self.consume(
            InvocationOperation::KillPinnedUnit,
            expected_invocation_id,
            Some(expected_object_path),
            None,
        ) {
            ScriptedInvocationResponse::Success => Ok(()),
            response => Err(response_error(response)),
        }
    }

    fn read_boundary_state(
        &self,
        expected_invocation_id: &str,
        expected_object_path: &str,
        _control_group: &str,
    ) -> Result<CgroupEmptyState, InvocationBackendError> {
        match self.consume(
            InvocationOperation::ReadBoundaryState,
            expected_invocation_id,
            Some(expected_object_path),
            None,
        ) {
            ScriptedInvocationResponse::BoundaryState(state) => Ok(state),
            response => Err(response_error(response)),
        }
    }

    fn unref_pinned_unit(&self, expected_invocation_id: &str, expected_object_path: &str) -> Result<(), InvocationBackendError> {
        match self.consume(
            InvocationOperation::UnrefPinnedUnit,
            expected_invocation_id,
            Some(expected_object_path),
            None,
        ) {
            ScriptedInvocationResponse::Success => Ok(()),
            response => Err(response_error(response)),
        }
    }
}

/// No process outside the scope can be read: the worker and the launcher
/// of these tests have no readable cgroup.
struct NoOutsideCgroups;

impl ProcessCgroupReader for NoOutsideCgroups {
    fn pid_cgroup(&self, _pid: u32) -> Result<String, PayloadScopeError> {
        Err(PayloadScopeError::CgroupMismatch)
    }

    fn read_members(&self, _control_group: &str) -> Result<Vec<u32>, PayloadScopeError> {
        Err(PayloadScopeError::InvalidMembership)
    }
}

fn prove(backend: &ScriptedInvocationBackend) -> Result<(), PayloadScopeError> {
    prove_empty_boundary(
        backend,
        &NoOutsideCgroups,
        &identity_a(),
        &pinned_a(),
        CONTROL_GROUP,
        u32::MAX,
        u32::MAX,
        LeaderExit::ExitedZero,
    )
    .map(|_| ())
}

fn pinned_a() -> PinnedInvocationUnit {
    PinnedInvocationUnit {
        object_path: path_a(),
        reference_held: true,
    }
}

fn kill_steps(kill_response: ScriptedInvocationResponse) -> Vec<ScriptedInvocationStep> {
    vec![
        ScriptedInvocationStep::new(
            InvocationOperation::ResolveByInvocation,
            ScriptedInvocationResponse::Resolved(path_a()),
        ),
        ScriptedInvocationStep::new(
            InvocationOperation::ReadPropertiesAfterRef,
            ScriptedInvocationResponse::Properties(properties_a()),
        ),
        ScriptedInvocationStep::new(InvocationOperation::KillPinnedUnit, kill_response),
    ]
}

fn terminate(backend: &ScriptedInvocationBackend) -> Result<(), PayloadScopeError> {
    request_graceful_termination_invocation(backend, &identity_a(), &pinned_a(), CONTROL_GROUP)
}

fn check_precommit_cgroup_disappearance() {
    let mut terminal = terminal_properties_a();
    terminal.control_group.clear();
    let backend = ScriptedInvocationBackend::new(vec![
        ScriptedInvocationStep::new(
            InvocationOperation::ReadBoundaryState,
            ScriptedInvocationResponse::BoundaryState(CgroupEmptyState::Absent),
        ),
        ScriptedInvocationStep::new(
            InvocationOperation::ResolveByInvocation,
            ScriptedInvocationResponse::Resolved(path_a()),
        ),
        ScriptedInvocationStep::new(
            InvocationOperation::ReadPropertiesDuringCleanup,
            ScriptedInvocationResponse::Properties(terminal.clone()),
        ),
        ScriptedInvocationStep::new(
            InvocationOperation::ResolveByInvocation,
            ScriptedInvocationResponse::Resolved(path_a()),
        ),
        ScriptedInvocationStep::new(
            InvocationOperation::ReadPropertiesDuringCleanup,
            ScriptedInvocationResponse::Properties(terminal),
        ),
        ScriptedInvocationStep::new(
            InvocationOperation::UnrefPinnedUnit,
            ScriptedInvocationResponse::Success,
        ),
    ]);
    assert_eq!(
        backend
            .read_boundary_state(INVOCATION_A, &path_a(), CONTROL_GROUP)
            .unwrap(),
        CgroupEmptyState::Absent
    );
    let mut pinned = pinned_a();
    prove_precommit_disappearance(&backend, &identity_a(), &pinned, CONTROL_GROUP).unwrap();
    release_pin(&backend, &identity_a(), &mut pinned).unwrap();
    assert!(!pinned.reference_held);
    backend.assert_consumed();
}

fn check_replacement_between_precommit_revalidations() {
    let mut terminal = terminal_properties_a();
    terminal.control_group.clear();
    let backend = ScriptedInvocationBackend::new(vec![
        ScriptedInvocationStep::new(
            InvocationOperation::ResolveByInvocation,
            ScriptedInvocationResponse::Resolved(path_a()),
        ),
        ScriptedInvocationStep::new(
            InvocationOperation::ReadPropertiesDuringCleanup,
            ScriptedInvocationResponse::Properties(terminal),
        ),
        ScriptedInvocationStep::new(
            InvocationOperation::ResolveByInvocation,
            ScriptedInvocationResponse::Resolved(path_b()),
        ),
    ]);
    let pinned = pinned_a();
    assert_eq!(
        prove_precommit_disappearance(&backend, &identity_a(), &pinned, CONTROL_GROUP),
        Err(PayloadScopeError::UnitReplaced)
    );
    assert!(pinned.reference_held);
    backend.assert_consumed();
}

fn check_invocation_removed_before_resolve() {
    let backend = ScriptedInvocationBackend::new(vec![ScriptedInvocationStep::new(
        InvocationOperation::ResolveByInvocation,
        ScriptedInvocationResponse::NoSuchUnit,
    )]);
    assert_eq!(
        terminate(&backend).unwrap_err(),
        PayloadScopeError::InvocationUnavailable
    );
    backend.assert_consumed();
}

fn check_invocation_removed_between_resolve_and_ref() {
    for response in [
        ScriptedInvocationResponse::UnknownObject,
        ScriptedInvocationResponse::NoSuchUnit,
    ] {
        let backend = ScriptedInvocationBackend::new(vec![
            ScriptedInvocationStep::new(
                InvocationOperation::ResolveByInvocation,
                ScriptedInvocationResponse::Resolved(path_a()),
            ),
            ScriptedInvocationStep::new(InvocationOperation::RefPinnedUnit, response),
        ]);
        let error = pin_invocation_unit(
            &backend,
            UNIT_NAME,
            INVOCATION_A,
            CONTROL_GROUP,
            "user-1000.slice",
        )
        .unwrap_err();
        assert_eq!(error, PayloadScopeError::InvocationUnavailable);
        backend.assert_consumed();
    }
}

fn assert_post_ref_mismatch(properties: InvocationUnitProperties) {
    let backend = ScriptedInvocationBackend::new(vec![
        ScriptedInvocationStep::new(
            InvocationOperation::ResolveByInvocation,
            ScriptedInvocationResponse::Resolved(path_a()),
        ),
        ScriptedInvocationStep::new(
            InvocationOperation::RefPinnedUnit,
            ScriptedInvocationResponse::Success,
        ),
        ScriptedInvocationStep::new(
            InvocationOperation::ReadPropertiesAfterRef,
            ScriptedInvocationResponse::Properties(properties),
        ),
        ScriptedInvocationStep::new(
            InvocationOperation::UnrefPinnedUnit,
            ScriptedInvocationResponse::Success,
        ),
    ]);
    assert_eq!(
        pin_invocation_unit(
            &backend,
            UNIT_NAME,
            INVOCATION_A,
            CONTROL_GROUP,
            "user-1000.slice",
        )
        .unwrap_err(),
        PayloadScopeError::UnitReplaced
    );
    backend.assert_consumed();
}

fn check_post_ref_invocation_mismatch() {
    assert_post_ref_mismatch(InvocationUnitProperties {
        invocation_id: INVOCATION_B.into(),
        ..properties_a()
    });
}

fn check_post_ref_unit_id_mismatch() {
    assert_post_ref_mismatch(InvocationUnitProperties {
        id: "replacement.scope".into(),
        ..properties_a()
    });
}

fn check_post_ref_control_group_mismatch() {
    assert_post_ref_mismatch(InvocationUnitProperties {
        control_group: "/user.slice/user-1000.slice/replacement.scope".into(),
        ..properties_a()
    });
}

fn check_post_ref_slice_mismatch() {
    assert_post_ref_mismatch(InvocationUnitProperties {
        slice: "system.slice".into(),
        ..properties_a()
    });
}

fn check_post_ref_non_transient() {
    assert_post_ref_mismatch(InvocationUnitProperties {
        transient: false,
        ..properties_a()
    });
}

fn check_post_ref_object_path_mismatch() {
    assert_post_ref_mismatch(InvocationUnitProperties {
        object_path: path_b(),
        ..properties_a()
    });
}

fn check_pinned_path_invalidated_before_kill() {
    for response in [
        ScriptedInvocationResponse::UnknownObject,
        ScriptedInvocationResponse::NoSuchUnit,
    ] {
        let backend = ScriptedInvocationBackend::new(kill_steps(response));
        assert_eq!(
            terminate(&backend).unwrap_err(),
            PayloadScopeError::InvocationUnavailable
        );
        backend.assert_consumed();
    }
}

fn check_bus_loss_before_kill() {
    let backend =
        ScriptedInvocationBackend::new(kill_steps(ScriptedInvocationResponse::BusDisconnected));
    let pinned = pinned_a();
    assert_eq!(
        request_graceful_termination_invocation(&backend, &identity_a(), &pinned, CONTROL_GROUP)
            .unwrap_err(),
        PayloadScopeError::BusUnavailable
    );
    assert!(pinned.reference_held);
    assert_eq!(pinned.object_path, path_a());
    backend.assert_consumed();
}

fn check_pinned_unit_never_reinterprets_reused_name() {
    let backend = ScriptedInvocationBackend::new(vec![
        ScriptedInvocationStep::new(
            InvocationOperation::ResolveByInvocation,
            ScriptedInvocationResponse::Resolved(path_a()),
        ),
        ScriptedInvocationStep::new(
            InvocationOperation::ReadPropertiesAfterRef,
            ScriptedInvocationResponse::Properties(properties_a()),
        ),
        ScriptedInvocationStep::new(
            InvocationOperation::KillPinnedUnit,
            ScriptedInvocationResponse::Success,
        ),
        ScriptedInvocationStep::new(
            InvocationOperation::ReadPropertiesAfterKill,
            ScriptedInvocationResponse::Properties(properties_a()),
        ),
        ScriptedInvocationStep::new(
            InvocationOperation::CreateBoundaryObserver,
            ScriptedInvocationResponse::Success,
        ),
        ScriptedInvocationStep::new(
            InvocationOperation::ResolveByInvocation,
            ScriptedInvocationResponse::Resolved(path_a()),
        ),
        ScriptedInvocationStep::new(
            InvocationOperation::ReadPropertiesAfterObserver,
            ScriptedInvocationResponse::Properties(terminal_properties_a()),
        ),
        ScriptedInvocationStep::new(
            InvocationOperation::ResolveByInvocation,
            ScriptedInvocationResponse::Resolved(path_a()),
        ),
        ScriptedInvocationStep::new(
            InvocationOperation::ReadPropertiesDuringEmptyProof,
            ScriptedInvocationResponse::Properties(terminal_properties_a()),
        ),
        ScriptedInvocationStep::new(
            InvocationOperation::ReadBoundaryState,
            ScriptedInvocationResponse::BoundaryState(CgroupEmptyState::PresentEmpty),
        ),
        ScriptedInvocationStep::new(
            InvocationOperation::ResolveByInvocation,
            ScriptedInvocationResponse::Resolved(path_a()),
        ),
        ScriptedInvocationStep::new(
            InvocationOperation::ReadPropertiesDuringEmptyProof,
            ScriptedInvocationResponse::Properties(terminal_properties_a()),
        ),
        ScriptedInvocationStep::new(
            InvocationOperation::UnrefPinnedUnit,
            ScriptedInvocationResponse::Success,
        ),
    ]);
    let identity = identity_a();
    let mut pinned = pinned_a();
    request_graceful_termination_invocation(&backend, &identity, &pinned, CONTROL_GROUP).unwrap();
    backend
        .create_boundary_observer(INVOCATION_A, &path_a())
        .unwrap();
    assert!(boundary_appears_terminal(&backend, &identity, &pinned, CONTROL_GROUP).unwrap());
    let proof = prove_empty_boundary(
        &backend,
        &NoOutsideCgroups,
        &identity,
        &pinned,
        CONTROL_GROUP,
        u32::MAX,
        u32::MAX,
        LeaderExit::ExitedZero,
    )
    .unwrap();
    assert_eq!(proof.unit_name(), UNIT_NAME);
    assert_eq!(proof.invocation_id(), INVOCATION_A);
    assert_eq!(proof.control_group(), CONTROL_GROUP);
    assert_eq!(proof.leader_exit(), LeaderExit::ExitedZero);
    release_pin(&backend, &identity, &mut pinned).unwrap();
    assert!(!pinned.reference_held);
    backend.assert_consumed();
}

fn check_replacement_after_kill_gets_no_second_operation() {
    let mut steps = kill_steps(ScriptedInvocationResponse::Success);
    steps.push(ScriptedInvocationStep::new(
        InvocationOperation::ReadPropertiesAfterKill,
        ScriptedInvocationResponse::NoSuchUnit,
    ));
    let backend = ScriptedInvocationBackend::new(steps);
    assert_eq!(
        terminate(&backend).unwrap_err(),
        PayloadScopeError::InvocationUnavailable
    );
    backend.assert_consumed();
}

fn check_replacement_path_after_kill() {
    let mut steps = kill_steps(ScriptedInvocationResponse::Success);
    steps.push(ScriptedInvocationStep::new(
        InvocationOperation::ReadPropertiesAfterKill,
        ScriptedInvocationResponse::Properties(InvocationUnitProperties {
            object_path: path_b(),
            invocation_id: INVOCATION_B.into(),
            ..properties_a()
        }),
    ));
    let backend = ScriptedInvocationBackend::new(steps);
    assert_eq!(terminate(&backend).unwrap_err(), PayloadScopeError::UnitReplaced);
    backend.assert_consumed();
}

fn check_bus_loss_after_kill() {
    let mut steps = kill_steps(ScriptedInvocationResponse::Success);
    steps.push(ScriptedInvocationStep::new(
        InvocationOperation::ReadPropertiesAfterKill,
        ScriptedInvocationResponse::BusDisconnected,
    ));
    let backend = ScriptedInvocationBackend::new(steps);
    assert_eq!(
        terminate(&backend).unwrap_err(),
        PayloadScopeError::BusUnavailable
    );
    backend.assert_consumed();
}

fn check_observer_wakeup_during_bus_loss() {
    let backend = ScriptedInvocationBackend::new(vec![
        ScriptedInvocationStep::new(
            InvocationOperation::CreateBoundaryObserver,
            ScriptedInvocationResponse::Success,
        ),
        ScriptedInvocationStep::new(
            InvocationOperation::ResolveByInvocation,
            ScriptedInvocationResponse::BusDisconnected,
        ),
    ]);
    backend
        .create_boundary_observer(INVOCATION_A, &path_a())
        .unwrap();
    assert_eq!(
        boundary_appears_terminal(&backend, &identity_a(), &pinned_a(), CONTROL_GROUP)
            .unwrap_err(),
        PayloadScopeError::BusUnavailable
    );
    backend.assert_consumed();
}

fn check_replacement_during_empty_proof() {
    let backend = ScriptedInvocationBackend::new(vec![ScriptedInvocationStep::new(
        InvocationOperation::ResolveByInvocation,
        ScriptedInvocationResponse::Resolved(path_b()),
    )]);
    assert_eq!(prove(&backend).unwrap_err(), PayloadScopeError::UnitReplaced);
    backend.assert_consumed();
}

fn check_replacement_between_empty_proof_revalidations() {
    let backend = ScriptedInvocationBackend::new(vec![
        ScriptedInvocationStep::new(
            InvocationOperation::ResolveByInvocation,
            ScriptedInvocationResponse::Resolved(path_a()),
        ),
        ScriptedInvocationStep::new(
            InvocationOperation::ReadPropertiesDuringEmptyProof,
            ScriptedInvocationResponse::Properties(terminal_properties_a()),
        ),
        ScriptedInvocationStep::new(
            InvocationOperation::ReadBoundaryState,
            ScriptedInvocationResponse::BoundaryState(CgroupEmptyState::PresentEmpty),
        ),
        ScriptedInvocationStep::new(
            InvocationOperation::ResolveByInvocation,
            ScriptedInvocationResponse::Resolved(path_b()),
        ),
    ]);
    assert_eq!(prove(&backend).unwrap_err(), PayloadScopeError::UnitReplaced);
    backend.assert_consumed();
}

fn check_observer_zero_then_populated_one() {
    let backend = ScriptedInvocationBackend::new(vec![
        ScriptedInvocationStep::new(
            InvocationOperation::ResolveByInvocation,
            ScriptedInvocationResponse::Resolved(path_a()),
        ),
        ScriptedInvocationStep::new(
            InvocationOperation::ReadPropertiesDuringEmptyProof,
            ScriptedInvocationResponse::Properties(terminal_properties_a()),
        ),
        ScriptedInvocationStep::new(
            InvocationOperation::ReadBoundaryState,
            ScriptedInvocationResponse::BoundaryNotEmpty,
        ),
    ]);
    assert_eq!(
        prove(&backend).unwrap_err(),
        PayloadScopeError::BoundaryNotEmpty
    );
    backend.assert_consumed();
}

fn check_no_such_unit_empty_proof() {
    let backend = ScriptedInvocationBackend::new(vec![
        ScriptedInvocationStep::new(
            InvocationOperation::ResolveByInvocation,
            ScriptedInvocationResponse::NoSuchUnit,
        ),
        ScriptedInvocationStep::new(
            InvocationOperation::ReadBoundaryState,
            ScriptedInvocationResponse::BoundaryState(CgroupEmptyState::Absent),
        ),
        ScriptedInvocationStep::new(
            InvocationOperation::ResolveByInvocation,
            ScriptedInvocationResponse::NoSuchUnit,
        ),
    ]);
    prove(&backend).unwrap();
    backend.assert_consumed();
}

fn check_no_such_unit_with_populated_boundary() {
    let backend = ScriptedInvocationBackend::new(vec![
        ScriptedInvocationStep::new(
            InvocationOperation::ResolveByInvocation,
            ScriptedInvocationResponse::NoSuchUnit,
        ),
        ScriptedInvocationStep::new(
            InvocationOperation::ReadBoundaryState,
            ScriptedInvocationResponse::BoundaryNotEmpty,
        ),
    ]);
    assert_eq!(
        prove(&backend).unwrap_err(),
        PayloadScopeError::BoundaryNotEmpty
    );
    backend.assert_consumed();
}

fn check_unref_never_before_empty_proof() {
    let backend = ScriptedInvocationBackend::new(vec![
        ScriptedInvocationStep::new(
            InvocationOperation::ResolveByInvocation,
            ScriptedInvocationResponse::Resolved(path_a()),
        ),
        ScriptedInvocationStep::new(
            InvocationOperation::ReadPropertiesDuringEmptyProof,
            ScriptedInvocationResponse::Properties(terminal_properties_a()),
        ),
        ScriptedInvocationStep::new(
            InvocationOperation::ReadBoundaryState,
            ScriptedInvocationResponse::BoundaryNotEmpty,
        ),
    ]);
    assert_eq!(
        prove(&backend).unwrap_err(),
        PayloadScopeError::BoundaryNotEmpty
    );
    backend.assert_consumed();
}

fn check_service_owner_change() {
    let backend = ScriptedInvocationBackend::new(vec![ScriptedInvocationStep::new(
        InvocationOperation::ResolveByInvocation,
        ScriptedInvocationResponse::ServiceOwnerChanged,
    )]);
    assert_eq!(
        terminate(&backend).unwrap_err(),
        PayloadScopeError::ServiceOwnerChanged
    );
    backend.assert_consumed();
}

fn check_typed_failures_distinct() {
    let transport = ScriptedInvocationBackend::new(vec![ScriptedInvocationStep::new(
        InvocationOperation::ResolveByInvocation,
        ScriptedInvocationResponse::TransportFailure,
    )]);
    assert_eq!(
        terminate(&transport).unwrap_err(),
        PayloadScopeError::TransportFailure
    );
    transport.assert_consumed();

    let cgroup = ScriptedInvocationBackend::new(vec![
        ScriptedInvocationStep::new(
            InvocationOperation::ResolveByInvocation,
            ScriptedInvocationResponse::NoSuchUnit,
        ),
        ScriptedInvocationStep::new(
            InvocationOperation::ReadBoundaryState,
            ScriptedInvocationResponse::CgroupIoFailure,
        ),
    ]);
    assert_eq!(
        prove(&cgroup).unwrap_err(),
        PayloadScopeError::InvalidMembership
    );
    cgroup.assert_consumed();

    let unref = ScriptedInvocationBackend::new(vec![ScriptedInvocationStep::new(
        InvocationOperation::UnrefPinnedUnit,
        ScriptedInvocationResponse::UnrefFailure,
    )]);
    let mut pinned = pinned_a();
    assert_eq!(
        release_pin(&unref, &identity_a(), &mut pinned).unwrap_err(),
        PayloadScopeError::UnrefFailed
    );
    assert!(pinned.reference_held);
    unref.assert_consumed();
}

fn check_cleared_control_group_before_terminal_state() {
    let backend = ScriptedInvocationBackend::new(vec![
        ScriptedInvocationStep::new(
            InvocationOperation::ResolveByInvocation,
            ScriptedInvocationResponse::Resolved(path_a()),
        ),
        ScriptedInvocationStep::new(
            InvocationOperation::ReadPropertiesAfterObserver,
            ScriptedInvocationResponse::Properties(InvocationUnitProperties {
                control_group: String::new(),
                ..properties_a()
            }),
        ),
    ]);
    assert_eq!(
        boundary_appears_terminal(&backend, &identity_a(), &pinned_a(), CONTROL_GROUP),
        Err(PayloadScopeError::UnitReplaced)
    );
    backend.assert_consumed();
}

#[test]
fn payload_scope_precommit_cgroup_disappearance_requires_two_coherent_invocation_resolutions() {
    check_precommit_cgroup_disappearance();
}

#[test]
fn precommit_precommit_cgroup_disappearance_requires_two_coherent_invocation_resolutions() {
    check_precommit_cgroup_disappearance();
}

#[test]
fn payload_scope_replacement_between_precommit_disappearance_revalidations_preserves_pin() {
    check_replacement_between_precommit_revalidations();
}

#[test]
fn precommit_replacement_between_precommit_disappearance_revalidations_preserves_pin() {
    check_replacement_between_precommit_revalidations();
}

#[test]
fn payload_scope_invocation_removed_before_resolve_never_falls_back_to_name() {
    check_invocation_removed_before_resolve();
}

#[test]
fn precommit_invocation_removed_before_resolve_never_falls_back_to_name() {
    check_invocation_removed_before_resolve();
}

#[test]
fn payload_scope_invocation_removed_between_resolve_and_ref_never_kills() {
    check_invocation_removed_between_resolve_and_ref();
}

#[test]
fn precommit_invocation_removed_between_resolve_and_ref_never_kills() {
    check_invocation_removed_between_resolve_and_ref();
}

#[test]
fn payload_scope_post_ref_invocation_mismatch_prevents_kill() {
    check_post_ref_invocation_mismatch();
}

#[test]
fn precommit_post_ref_invocation_mismatch_prevents_kill() {
    check_post_ref_invocation_mismatch();
}

#[test]
fn payload_scope_post_ref_unit_id_mismatch_prevents_kill() {
    check_post_ref_unit_id_mismatch();
}

#[test]
fn precommit_post_ref_unit_id_mismatch_prevents_kill() {
    check_post_ref_unit_id_mismatch();
}

#[test]
fn payload_scope_post_ref_control_group_mismatch_prevents_kill() {
    check_post_ref_control_group_mismatch();
}

#[test]
fn precommit_post_ref_control_group_mismatch_prevents_kill() {
    check_post_ref_control_group_mismatch();
}

#[test]
fn payload_scope_post_ref_slice_mismatch_prevents_kill() {
    check_post_ref_slice_mismatch();
}

#[test]
fn precommit_post_ref_slice_mismatch_prevents_kill() {
    check_post_ref_slice_mismatch();
}

#[test]
fn payload_scope_post_ref_non_transient_unit_prevents_kill() {
    check_post_ref_non_transient();
}

#[test]
fn precommit_post_ref_non_transient_unit_prevents_kill() {
    check_post_ref_non_transient();
}

#[test]
fn payload_scope_post_ref_object_path_mismatch_prevents_kill() {
    check_post_ref_object_path_mismatch();
}

#[test]
fn pinning_post_ref_object_path_mismatch_prevents_kill() {
    check_post_ref_object_path_mismatch();
}

#[test]
fn payload_scope_pinned_path_invalidated_before_kill_fails_closed() {
    check_pinned_path_invalidated_before_kill();
}

#[test]
fn pinning_pinned_path_invalidated_before_kill_fails_closed() {
    check_pinned_path_invalidated_before_kill();
}

#[test]
fn payload_scope_bus_loss_before_kill_preserves_pinned_identity() {
    check_bus_loss_before_kill();
}

#[test]
fn pinning_bus_loss_before_kill_preserves_pinned_identity() {
    check_bus_loss_before_kill();
}

#[test]
fn payload_scope_pinned_unit_never_reinterprets_reused_name() {
    check_pinned_unit_never_reinterprets_reused_name();
}

#[test]
fn pinning_pinned_unit_never_reinterprets_reused_name() {
    check_pinned_unit_never_reinterprets_reused_name();
}

#[test]
fn payload_scope_replacement_after_kill_does_not_receive_second_operation() {
    check_replacement_after_kill_gets_no_second_operation();
}

#[test]
fn pinning_replacement_after_kill_does_not_receive_second_operation() {
    check_replacement_after_kill_gets_no_second_operation();
}

#[test]
fn payload_scope_replacement_path_after_kill_is_identity_change() {
    check_replacement_path_after_kill();
}

#[test]
fn pinning_replacement_path_after_kill_is_identity_change() {
    check_replacement_path_after_kill();
}

#[test]
fn payload_scope_bus_loss_after_kill_does_not_produce_candidate() {
    check_bus_loss_after_kill();
}

#[test]
fn termination_bus_loss_after_kill_does_not_produce_candidate() {
    check_bus_loss_after_kill();
}

#[test]
fn forced_kill_bus_loss_after_kill_does_not_produce_candidate() {
    check_bus_loss_after_kill();
}

#[test]
fn payload_scope_observer_wakeup_during_bus_loss_does_not_produce_candidate() {
    check_observer_wakeup_during_bus_loss();
}

#[test]
fn termination_observer_wakeup_during_bus_loss_does_not_produce_candidate() {
    check_observer_wakeup_during_bus_loss();
}

#[test]
fn payload_scope_replacement_during_empty_proof_prevents_finalization() {
    check_replacement_during_empty_proof();
}

#[test]
fn termination_replacement_during_empty_proof_prevents_finalization() {
    check_replacement_during_empty_proof();
}

#[test]
fn payload_scope_replacement_between_empty_proof_revalidations_is_detected() {
    check_replacement_between_empty_proof_revalidations();
}

#[test]
fn payload_scope_observer_zero_then_populated_one_prevents_proof() {
    check_observer_zero_then_populated_one();
}

#[test]
fn empty_boundary_observer_zero_then_populated_one_prevents_proof() {
    check_observer_zero_then_populated_one();
}

#[test]
fn payload_scope_no_such_unit_empty_proof_requires_two_missing_resolutions_and_absent_cgroup() {
    check_no_such_unit_empty_proof();
}

#[test]
fn empty_boundary_no_such_unit_empty_proof_requires_two_missing_resolutions_and_absent_cgroup() {
    check_no_such_unit_empty_proof();
}

#[test]
fn payload_scope_no_such_unit_with_populated_boundary_never_proves_empty() {
    check_no_such_unit_with_populated_boundary();
}

#[test]
fn empty_boundary_no_such_unit_with_populated_boundary_never_proves_empty() {
    check_no_such_unit_with_populated_boundary();
}

#[test]
fn payload_scope_unref_is_never_called_before_empty_proof() {
    check_unref_never_before_empty_proof();
}

#[test]
fn empty_boundary_unref_is_never_called_before_empty_proof() {
    check_unref_never_before_empty_proof();
}

#[test]
fn payload_scope_service_owner_change_is_not_accepted_as_a_valid_pin() {
    check_service_owner_change();
}

#[test]
fn backend_failures_service_owner_change_is_not_accepted_as_a_valid_pin() {
    check_service_owner_change();
}

#[test]
fn payload_scope_typed_transport_cgroup_and_unref_failures_remain_distinct() {
    check_typed_failures_distinct();
}

#[test]
fn backend_failures_typed_transport_cgroup_and_unref_failures_remain_distinct() {
    check_typed_failures_distinct();
}

#[test]
fn cleared_control_group_before_terminal_state_is_identity_change() {
    check_cleared_control_group_before_terminal_state();
}

fn terminal_properties_with_cleared_control_group() -> InvocationUnitProperties {
    InvocationUnitProperties {
        control_group: String::new(),
        ..terminal_properties_a()
    }
}

#[test]
fn terminal_pinned_scope_with_cleared_control_group_and_absent_cgroup_proves_empty() {
    let terminal = terminal_properties_with_cleared_control_group;
    let backend = ScriptedInvocationBackend::new(vec![
        ScriptedInvocationStep::new(
            InvocationOperation::ResolveByInvocation,
            ScriptedInvocationResponse::Resolved(path_a()),
        ),
        ScriptedInvocationStep::new(
            InvocationOperation::ReadPropertiesAfterObserver,
            ScriptedInvocationResponse::Properties(terminal()),
        ),
        ScriptedInvocationStep::new(
            InvocationOperation::ResolveByInvocation,
            ScriptedInvocationResponse::Resolved(path_a()),
        ),
        ScriptedInvocationStep::new(
            InvocationOperation::ReadPropertiesDuringEmptyProof,
            ScriptedInvocationResponse::Properties(terminal()),
        ),
        ScriptedInvocationStep::new(
            InvocationOperation::ReadBoundaryState,
            ScriptedInvocationResponse::BoundaryState(CgroupEmptyState::Absent),
        ),
        ScriptedInvocationStep::new(
            InvocationOperation::ResolveByInvocation,
            ScriptedInvocationResponse::Resolved(path_a()),
        ),
        ScriptedInvocationStep::new(
            InvocationOperation::ReadPropertiesDuringEmptyProof,
            ScriptedInvocationResponse::Properties(terminal()),
        ),
        ScriptedInvocationStep::new(
            InvocationOperation::UnrefPinnedUnit,
            ScriptedInvocationResponse::Success,
        ),
    ]);
    let identity = identity_a();
    let mut pinned = pinned_a();
    assert!(boundary_appears_terminal(&backend, &identity, &pinned, CONTROL_GROUP).unwrap());
    prove(&backend).unwrap();
    release_pin(&backend, &identity, &mut pinned).unwrap();
    assert!(!pinned.reference_held);
    backend.assert_consumed();
}

#[test]
fn termination_post_kill_terminal_scope_with_cleared_control_group_is_not_replacement() {
    let mut steps = kill_steps(ScriptedInvocationResponse::Success);
    steps.push(ScriptedInvocationStep::new(
        InvocationOperation::ReadPropertiesAfterKill,
        ScriptedInvocationResponse::Properties(terminal_properties_with_cleared_control_group()),
    ));
    let backend = ScriptedInvocationBackend::new(steps);
    terminate(&backend).unwrap();
    backend.assert_consumed();
}

#[test]
fn graceful_kill_goes_to_the_pinned_invocation_with_sigterm_only_after_eligibility() {
    let identity = identity_a();
    let pinned = pinned_a();
    assert_eq!(
        graceful_step(&identity, &pinned, CONTROL_GROUP, GracefulStage::Start, &ProviderAnswer::Nothing),
        ProviderNext::Call(ProviderRequest::ResolveByInvocation { invocation_id: INVOCATION_A })
    );
    let eligible = ProviderAnswer::Properties(Ok(properties_a()));
    assert_eq!(
        graceful_step(&identity, &pinned, CONTROL_GROUP, GracefulStage::AwaitingEligibility, &eligible),
        ProviderNext::Call(ProviderRequest::KillPinnedUnit {
            invocation_id: INVOCATION_A,
            object_path: &path_a(),
            signal: LINUX_SIGTERM,
        })
    );
    let replaced = ProviderAnswer::Properties(Ok(InvocationUnitProperties {
        invocation_id: INVOCATION_B.into(),
        ..properties_a()
    }));
    assert_eq!(
        graceful_step(&identity, &pinned, CONTROL_GROUP, GracefulStage::AwaitingEligibility, &replaced),
        ProviderNext::Finish(Err(PayloadScopeError::UnitReplaced))
    );
    assert_eq!(
        release_request(&identity, &pinned),
        Some(ProviderRequest::UnrefPinnedUnit {
            invocation_id: INVOCATION_A,
            object_path: &path_a(),
        })
    );
}
