//! Creating the payload scope and cleaning it up before commit: the checks
//! the worker applies to what systemd and the kernel report about a newly
//! started transient scope, and how D-Bus failures are classified.
use vstd::prelude::*;

use crate::cgroup::{hex_id, spec_hex, INVOCATION_ID_BYTES};
use crate::invocation::{
    prove_precommit_disappearance, spec_disappearance_outcome, AnswerView,
    InvocationBoundProvider, PropertiesAnswer, ProviderAnswer, ProviderRequest, RequestView,
};
use crate::names::{
    lit_dbus_disconnected, lit_dbus_disconnected_vec, lit_dbus_no_reply, lit_dbus_no_reply_vec,
    lit_done, lit_done_vec, lit_name_has_no_owner, lit_name_has_no_owner_vec, lit_no_such_unit,
    lit_no_such_unit_vec, lit_payload_prefix, lit_payload_prefix_vec, lit_scope_suffix,
    lit_scope_suffix_vec, lit_unknown_object, lit_unknown_object_vec,
};
use crate::payload_scope::{
    running_unit_state, spec_running_unit_state, spec_user_slice, spec_valid_payload_cgroup,
    spec_disappeared_properties_valid, user_slice_bytes, valid_payload_cgroup, CgroupEmptyState,
    InvocationBackendError, PayloadScopeError, PayloadScopeIdentity, PinnedInvocationUnit,
    UnitPropertiesView,
};
use crate::text::{
    append_bytes, ascii_string, bytes_equal, lemma_utf8_bytes_injective, str_bytes, string_bytes,
    text_equal, utf8_bytes,
};

verus! {

/// Creates authoritative transient scopes for session payloads through
/// systemd.
#[derive(Debug, Default, Clone, Copy)]
pub struct SystemdPayloadScopeManager;

/// The launch identity a scope may be prepared for: a non-root user, a
/// session leader that leads its own session and process group, and an
/// open pidfd.
pub open spec fn spec_launch_identity_ok(
    child_pid: u32,
    process_pid: u32,
    process_sid: u32,
    process_pgid: u32,
    authoritative_pidfd: i32,
    expected_uid: u32,
) -> bool {
    &&& expected_uid != 0
    &&& child_pid == process_pid
    &&& process_sid == child_pid
    &&& process_pgid == child_pid
    &&& authoritative_pidfd >= 0
}

impl SystemdPayloadScopeManager {
    /// Whether a scope must be registered with the supervisor before commit.
    pub fn requires_supervisor_registration(&self) -> (r: bool)
        ensures
            r,
    {
        true
    }

    /// Checks the launch identity before any scope is requested.
    pub fn check_launch_identity(
        &self,
        child_pid: u32,
        process_pid: u32,
        process_sid: u32,
        process_pgid: u32,
        authoritative_pidfd: i32,
        expected_uid: u32,
    ) -> (r: Result<(), PayloadScopeError>)
        ensures
            r is Ok <==> spec_launch_identity_ok(
                child_pid,
                process_pid,
                process_sid,
                process_pgid,
                authoritative_pidfd,
                expected_uid,
            ),
            r matches Err(e) ==> e == PayloadScopeError::InvalidIdentity,
    {
        if expected_uid == 0 || child_pid != process_pid || process_sid != child_pid || process_pgid
            != child_pid || authoritative_pidfd < 0 {
            return Err(PayloadScopeError::InvalidIdentity);
        }
        Ok(())
    }
}

/// The unit name for 16 random bytes: `niralis-payload-<32 hex digits>.scope`.
pub open spec fn spec_payload_unit_name(random: Seq<u8>) -> Seq<u8> {
    lit_payload_prefix() + spec_hex(random) + lit_scope_suffix()
}

pub fn payload_unit_name(random: &[u8]) -> (r: Option<String>)
    ensures
        (r is Some) == (random@.len() == INVOCATION_ID_BYTES),
        r matches Some(name) ==> utf8_bytes(name@) == spec_payload_unit_name(random@),
{
    let hex = match hex_id(random) {
        Some(h) => h,
        None => {
            return None;
        },
    };
    let mut out = lit_payload_prefix_vec();
    append_bytes(&mut out, string_bytes(&hex));
    let suffix = lit_scope_suffix_vec();
    append_bytes(&mut out, suffix.as_slice());
    proof {
        assert forall|i: int| 0 <= i < out@.len() implies out@[i] <= 0x7fu8 by {
            let p = lit_payload_prefix();
            let h = spec_hex(random@);
            if i >= p.len() && i < p.len() + h.len() {
                let j = i - p.len();
                let v = if j % 2 == 0 {
                    random@[j / 2] / 16
                } else {
                    random@[j / 2] % 16
                };
                assert(h[j] == crate::cgroup::hex_digit(v));
            }
        }
    }
    Some(ascii_string(out))
}

/// The properties of a newly started scope must name the requested unit,
/// report it active and running, transient, in the user's slice, with the
/// cgroup a payload scope must have.
pub open spec fn spec_started_scope_ok(
    unit_name: Seq<u8>,
    expected_uid: u32,
    id: Seq<u8>,
    active: Seq<u8>,
    sub: Seq<u8>,
    transient: bool,
    observed_slice: Seq<u8>,
    control_group: Seq<u8>,
) -> bool {
    &&& id == unit_name
    &&& spec_running_unit_state(active, sub)
    &&& transient
    &&& observed_slice == spec_user_slice(expected_uid)
    &&& spec_valid_payload_cgroup(control_group, expected_uid, unit_name)
}

pub fn check_started_scope(
    unit_name: &str,
    expected_uid: u32,
    id: &str,
    active: &str,
    sub: &str,
    transient: bool,
    observed_slice: &str,
    control_group: &str,
) -> (r: Result<(), PayloadScopeError>)
    ensures
        r is Ok <==> spec_started_scope_ok(
            utf8_bytes(unit_name@),
            expected_uid,
            utf8_bytes(id@),
            utf8_bytes(active@),
            utf8_bytes(sub@),
            transient,
            utf8_bytes(observed_slice@),
            utf8_bytes(control_group@),
        ),
        r matches Err(e) ==> e == PayloadScopeError::InvalidIdentity,
{
    let slice = user_slice_bytes(expected_uid);
    if !bytes_equal(str_bytes(id), str_bytes(unit_name)) || !running_unit_state(active, sub)
        || !transient || !bytes_equal(str_bytes(observed_slice), slice.as_slice())
        || !valid_payload_cgroup(control_group, expected_uid, unit_name) {
        return Err(PayloadScopeError::InvalidIdentity);
    }
    Ok(())
}

/// The cgroup the kernel reports for the leader's pidfd must be the scope's.
pub fn check_authoritative_cgroup(authoritative: &str, control_group: &str) -> (r: Result<
    (),
    PayloadScopeError,
>)
    ensures
        r is Ok <==> authoritative@ == control_group@,
        r matches Err(e) ==> e == PayloadScopeError::CgroupMismatch,
{
    if !text_equal(authoritative, control_group) {
        return Err(PayloadScopeError::CgroupMismatch);
    }
    Ok(())
}

/// A new scope must hold exactly the session leader.
pub fn check_sole_member(members: &[u32], pid: u32) -> (r: Result<(), PayloadScopeError>)
    ensures
        r is Ok <==> members@ == seq![pid],
        r matches Err(e) ==> e == PayloadScopeError::InvalidMembership,
{
    if members.len() != 1 || members[0] != pid {
        return Err(PayloadScopeError::InvalidMembership);
    }
    assert(members@ =~= seq![pid]);
    Ok(())
}

/// A `JobRemoved` signal reports success when it names a real job, the
/// expected job path, and the result `done`.
pub open spec fn spec_job_done(id: u32, path: Seq<char>, expected_path: Seq<char>, result: Seq<u8>) -> bool {
    id != 0 && path == expected_path && result == lit_done()
}

pub fn job_removed_outcome(id: u32, path: &str, expected_path: &str, result: &str) -> (r: Result<
    (),
    PayloadScopeError,
>)
    ensures
        r is Ok <==> spec_job_done(id, path@, expected_path@, utf8_bytes(result@)),
        r matches Err(e) ==> e == PayloadScopeError::JobFailed,
{
    let done = lit_done_vec();
    if id == 0 || !text_equal(path, expected_path) || !bytes_equal(str_bytes(result), done.as_slice()) {
        return Err(PayloadScopeError::JobFailed);
    }
    Ok(())
}

/// What the worker learns from a D-Bus failure.
#[derive(Debug, Clone, PartialEq, Eq)]
pub enum BusErrorDescription {
    /// A method error reply, with its error name.
    MethodError(String),
    /// The transport failed.
    InputOutput,
    /// A standard error: the bus name has no owner.
    FdoNameHasNoOwner,
    /// A standard error: the connection was lost.
    FdoDisconnected,
    /// A standard error: no reply came.
    FdoNoReply,
    /// Any other standard error.
    FdoOther,
    /// Any other failure.
    Other,
}

pub open spec fn spec_classify_bus_error(description: BusErrorDescription) -> InvocationBackendError {
    match description {
        BusErrorDescription::MethodError(name) => {
            let n = utf8_bytes(name@);
            if n == lit_no_such_unit() {
                InvocationBackendError::NoSuchUnit
            } else if n == lit_unknown_object() {
                InvocationBackendError::UnknownObject
            } else if n == lit_name_has_no_owner() {
                InvocationBackendError::ServiceOwnerChanged
            } else if n == lit_dbus_disconnected() || n == lit_dbus_no_reply() {
                InvocationBackendError::BusDisconnected
            } else {
                InvocationBackendError::Transport
            }
        },
        BusErrorDescription::InputOutput => InvocationBackendError::BusDisconnected,
        BusErrorDescription::FdoNameHasNoOwner => InvocationBackendError::ServiceOwnerChanged,
        BusErrorDescription::FdoDisconnected => InvocationBackendError::BusDisconnected,
        BusErrorDescription::FdoNoReply => InvocationBackendError::BusDisconnected,
        BusErrorDescription::FdoOther => InvocationBackendError::Transport,
        BusErrorDescription::Other => InvocationBackendError::Transport,
    }
}

/// Classifies a D-Bus failure of an invocation-bound operation.
pub fn classify_bus_error(description: &BusErrorDescription) -> (r: InvocationBackendError)
    ensures
        r == spec_classify_bus_error(*description),
{
    match description {
        BusErrorDescription::MethodError(name) => {
            let n = string_bytes(name);
            let no_such = lit_no_such_unit_vec();
            let unknown = lit_unknown_object_vec();
            let no_owner = lit_name_has_no_owner_vec();
            let disconnected = lit_dbus_disconnected_vec();
            let no_reply = lit_dbus_no_reply_vec();
            if bytes_equal(n, no_such.as_slice()) {
                InvocationBackendError::NoSuchUnit
            } else if bytes_equal(n, unknown.as_slice()) {
                InvocationBackendError::UnknownObject
            } else if bytes_equal(n, no_owner.as_slice()) {
                InvocationBackendError::ServiceOwnerChanged
            } else if bytes_equal(n, disconnected.as_slice()) || bytes_equal(n, no_reply.as_slice()) {
                InvocationBackendError::BusDisconnected
            } else {
                InvocationBackendError::Transport
            }
        },
        BusErrorDescription::InputOutput => InvocationBackendError::BusDisconnected,
        BusErrorDescription::FdoNameHasNoOwner => InvocationBackendError::ServiceOwnerChanged,
        BusErrorDescription::FdoDisconnected => InvocationBackendError::BusDisconnected,
        BusErrorDescription::FdoNoReply => InvocationBackendError::BusDisconnected,
        BusErrorDescription::FdoOther => InvocationBackendError::Transport,
        BusErrorDescription::Other => InvocationBackendError::Transport,
    }
}

#[verifier::external_type_specification]
#[verifier::external_body]
pub struct ExZbusError(zbus::Error);

/// What `describe_zbus_error` makes of a `zbus::Error`: a function of the
/// error alone.
pub uninterp spec fn zbus_error_description(error: zbus::Error) -> BusErrorDescription;

/// Tells apart the variants of `zbus::Error` that the worker reacts to
/// (method errors, which keep their error name, I/O failures, and the
/// standard errors `NameHasNoOwner`, `Disconnected` and `NoReply`); all
/// others are `Other` or `FdoOther`. The contract only names the result.
#[verifier::external_body]
fn describe_zbus_error(error: zbus::Error) -> (r: BusErrorDescription)
    ensures
        r == zbus_error_description(error),
{
    match error {
        zbus::Error::MethodError(name, _, _) => BusErrorDescription::MethodError(
            name.as_str().to_owned(),
        ),
        zbus::Error::InputOutput(_) => BusErrorDescription::InputOutput,
        zbus::Error::FDO(error) => match *error {
            zbus::fdo::Error::NameHasNoOwner(_) => BusErrorDescription::FdoNameHasNoOwner,
            zbus::fdo::Error::Disconnected(_) => BusErrorDescription::FdoDisconnected,
            zbus::fdo::Error::NoReply(_) => BusErrorDescription::FdoNoReply,
            _ => BusErrorDescription::FdoOther,
        },
        _ => BusErrorDescription::Other,
    }
}

/// Classifies a `zbus` failure of an invocation-bound operation.
pub fn classify_zbus_error(error: zbus::Error) -> (r: InvocationBackendError)
    ensures
        r == spec_classify_bus_error(zbus_error_description(error)),
{
    let description = describe_zbus_error(error);
    classify_bus_error(&description)
}

/// The steps of preparing a payload scope, in the order they run: start
/// the transient unit, wait for its start job, read the unit back, check it
/// is the started scope, check it is the leader's authoritative cgroup, that
/// the leader is its sole member, that the worker and then the launcher lie
/// outside it, and pin it by invocation.
#[derive(Debug, Clone, Copy, PartialEq, Eq, Structural)]
pub enum PrepareStep {
    StartUnit,
    AwaitStartJob,
    ReadUnit,
    CheckStartedScope,
    CheckAuthoritativeCgroup,
    CheckSoleMember,
    CheckWorkerOutside,
    CheckLauncherOutside,
    PinInvocation,
}

/// How a step went.
#[derive(Debug, Clone, Copy, PartialEq, Eq, Structural)]
pub enum PrepareEvent {
    Passed,
    Failed(PayloadScopeError),
}

/// What preparation does next.
#[derive(Debug, Clone, Copy, PartialEq, Eq, Structural)]
pub enum PrepareAction {
    /// Run this step.
    Perform(PrepareStep),
    /// The scope is prepared and pinned.
    Finish,
    /// Fail with this error; no unit was created.
    Fail(PayloadScopeError),
    /// Stop the created unit, then fail with this error (or with
    /// `CleanupFailed` where stopping fails).
    StopUnitThenFail(PayloadScopeError),
}

/// The step after a passed one, `None` after the last.
pub open spec fn spec_next_prepare_step(step: PrepareStep) -> Option<PrepareStep> {
    match step {
        PrepareStep::StartUnit => Some(PrepareStep::AwaitStartJob),
        PrepareStep::AwaitStartJob => Some(PrepareStep::ReadUnit),
        PrepareStep::ReadUnit => Some(PrepareStep::CheckStartedScope),
        PrepareStep::CheckStartedScope => Some(PrepareStep::CheckAuthoritativeCgroup),
        PrepareStep::CheckAuthoritativeCgroup => Some(PrepareStep::CheckSoleMember),
        PrepareStep::CheckSoleMember => Some(PrepareStep::CheckWorkerOutside),
        PrepareStep::CheckWorkerOutside => Some(PrepareStep::CheckLauncherOutside),
        PrepareStep::CheckLauncherOutside => Some(PrepareStep::PinInvocation),
        PrepareStep::PinInvocation => None,
    }
}

/// The decision after a step: a passed step leads to the next one, the last
/// to the prepared scope; a failure before the unit exists fails at once,
/// any later failure stops the unit first.
pub open spec fn spec_prepare_step(step: PrepareStep, event: PrepareEvent) -> PrepareAction {
    match event {
        PrepareEvent::Failed(e) => if step == PrepareStep::StartUnit {
            PrepareAction::Fail(e)
        } else {
            PrepareAction::StopUnitThenFail(e)
        },
        PrepareEvent::Passed => match spec_next_prepare_step(step) {
            Some(next) => PrepareAction::Perform(next),
            None => PrepareAction::Finish,
        },
    }
}

pub fn prepare_step(step: PrepareStep, event: PrepareEvent) -> (r: PrepareAction)
    ensures
        r == spec_prepare_step(step, event),
{
    match event {
        PrepareEvent::Failed(e) => match step {
            PrepareStep::StartUnit => PrepareAction::Fail(e),
            _ => PrepareAction::StopUnitThenFail(e),
        },
        PrepareEvent::Passed => match step {
            PrepareStep::StartUnit => PrepareAction::Perform(PrepareStep::AwaitStartJob),
            PrepareStep::AwaitStartJob => PrepareAction::Perform(PrepareStep::ReadUnit),
            PrepareStep::ReadUnit => PrepareAction::Perform(PrepareStep::CheckStartedScope),
            PrepareStep::CheckStartedScope => PrepareAction::Perform(
                PrepareStep::CheckAuthoritativeCgroup,
            ),
            PrepareStep::CheckAuthoritativeCgroup => PrepareAction::Perform(
                PrepareStep::CheckSoleMember,
            ),
            PrepareStep::CheckSoleMember => PrepareAction::Perform(PrepareStep::CheckWorkerOutside),
            PrepareStep::CheckWorkerOutside => PrepareAction::Perform(
                PrepareStep::CheckLauncherOutside,
            ),
            PrepareStep::CheckLauncherOutside => PrepareAction::Perform(PrepareStep::PinInvocation),
            PrepareStep::PinInvocation => PrepareAction::Finish,
        },
    }
}

/// The error a failed preparation reports once it tried to stop its unit:
/// its own, or `CleanupFailed` where the unit could not be stopped.
pub fn failed_preparation_error(error: PayloadScopeError, stopped: bool) -> (r: PayloadScopeError)
    ensures
        r == (if stopped {
            error
        } else {
            PayloadScopeError::CleanupFailed
        }),
{
    if stopped {
        error
    } else {
        PayloadScopeError::CleanupFailed
    }
}

/// The position of a step in the preparation order.
pub open spec fn prepare_step_index(step: PrepareStep) -> nat {
    match step {
        PrepareStep::StartUnit => 0,
        PrepareStep::AwaitStartJob => 1,
        PrepareStep::ReadUnit => 2,
        PrepareStep::CheckStartedScope => 3,
        PrepareStep::CheckAuthoritativeCgroup => 4,
        PrepareStep::CheckSoleMember => 5,
        PrepareStep::CheckWorkerOutside => 6,
        PrepareStep::CheckLauncherOutside => 7,
        PrepareStep::PinInvocation => 8,
    }
}

/// Where a run of step outcomes leads, from a given step: to the prepared
/// scope only where every outcome passed, and to the first failure
/// otherwise. `None` where the outcomes run out first.
pub open spec fn spec_prepare_run(step: PrepareStep, events: Seq<PrepareEvent>) -> Option<PrepareAction>
    decreases events.len(),
{
    if events.len() == 0 {
        None
    } else {
        match spec_prepare_step(step, events[0]) {
            PrepareAction::Perform(next) => spec_prepare_run(next, events.subrange(1, events.len() as int)),
            action => Some(action),
        }
    }
}

/// A preparation finishes only after all nine steps passed, in order, and
/// any failure after the unit was started stops the unit before failing.
pub proof fn lemma_prepare_runs_every_step(step: PrepareStep, events: Seq<PrepareEvent>)
    ensures
        spec_prepare_run(step, events) == Some(PrepareAction::Finish) ==> events.len() >= 9
            - prepare_step_index(step) && forall|i: int|
            0 <= i < 9 - prepare_step_index(step) ==> #[trigger] events[i] == PrepareEvent::Passed,
        spec_prepare_run(step, events) matches Some(PrepareAction::Fail(e)) ==> step
            == PrepareStep::StartUnit && events[0] == PrepareEvent::Failed(e),
    decreases events.len(),
{
    if events.len() > 0 {
        let rest = events.subrange(1, events.len() as int);
        match spec_prepare_step(step, events[0]) {
            PrepareAction::Perform(next) => {
                lemma_prepare_runs_every_step(next, rest);
                assert forall|i: int|
                    0 < i < 9 - prepare_step_index(step) && spec_prepare_run(step, events) == Some(
                        PrepareAction::Finish,
                    ) implies #[trigger] events[i] == PrepareEvent::Passed by {
                    assert(events[i] == rest[i - 1]);
                }
            },
            _ => {},
        }
    }
}

/// What pre-commit cleanup has left to do after its invocation-bound part.
#[derive(Debug, Clone, Copy, PartialEq, Eq, Structural)]
pub enum CleanupProgress {
    /// The cgroup disappeared with the pinned, terminal unit; nothing is left.
    Finished,
    /// The cgroup is present and empty; the unit must be stopped.
    StopUnitRequired,
}

/// The outcome of the invocation-bound part of pre-commit cleanup, from
/// what the provider answered: the boundary state, the disappearance proof
/// and, where the pin is to be released, the release. A present, empty
/// cgroup leaves the unit to be stopped; a failed read or release is a
/// failed cleanup.
pub open spec fn spec_cleanup_outcome(
    release_pin: bool,
    state: Result<CgroupEmptyState, InvocationBackendError>,
    proved: Result<(), PayloadScopeError>,
    released: Result<(), InvocationBackendError>,
) -> Result<CleanupProgress, PayloadScopeError> {
    match state {
        Err(_) => Err(PayloadScopeError::CleanupFailed),
        Ok(CgroupEmptyState::PresentEmpty) => Ok(CleanupProgress::StopUnitRequired),
        Ok(CgroupEmptyState::Absent) => match proved {
            Err(e) => Err(e),
            Ok(()) => if release_pin && released is Err {
                Err(PayloadScopeError::CleanupFailed)
            } else {
                Ok(CleanupProgress::Finished)
            },
        },
    }
}

/// How far the invocation-bound part of pre-commit cleanup has come.
#[derive(Debug, Clone, Copy, PartialEq, Eq, Structural)]
pub enum CleanupStage {
    Start,
    AwaitingBoundaryState,
    DisappearanceProved,
    AwaitingRelease,
}

/// What pre-commit cleanup does next.
#[derive(Debug, PartialEq, Eq)]
pub enum CleanupNext<'a> {
    /// Make this call.
    Call(ProviderRequest<'a>),
    /// Prove that the unit disappeared with its cgroup.
    ProveDisappearance,
    /// Stop with this result.
    Finish(Result<CleanupProgress, PayloadScopeError>),
}

/// A cleanup decision, by the view of the call it asks for.
pub enum CleanupNextView {
    Call(RequestView),
    ProveDisappearance,
    Finish(Result<CleanupProgress, PayloadScopeError>),
}

impl<'a> View for CleanupNext<'a> {
    type V = CleanupNextView;

    open spec fn view(&self) -> CleanupNextView {
        match *self {
            CleanupNext::Call(request) => CleanupNextView::Call(request@),
            CleanupNext::ProveDisappearance => CleanupNextView::ProveDisappearance,
            CleanupNext::Finish(r) => CleanupNextView::Finish(r),
        }
    }
}

/// The next step of pre-commit cleanup: the boundary state is read for the
/// pinned path of the invocation and the cgroup; a present, empty cgroup
/// leaves the unit to be stopped; a missing one must be proved to have
/// disappeared with the unit; then, where asked, the pinned path of the
/// invocation is released. A failed read or release is a failed cleanup.
pub open spec fn spec_cleanup_step(
    identity: PayloadScopeIdentity,
    pinned: PinnedInvocationUnit,
    control_group: Seq<char>,
    release_pin: bool,
    stage: CleanupStage,
    answer: AnswerView,
    proved: Result<(), PayloadScopeError>,
) -> CleanupNextView {
    match (stage, answer) {
        (CleanupStage::Start, _) => CleanupNextView::Call(
            RequestView::ReadBoundaryState {
                invocation_id: identity.invocation_id@,
                object_path: pinned.object_path@,
                control_group,
            },
        ),
        (CleanupStage::AwaitingBoundaryState, AnswerView::Boundary(Ok(CgroupEmptyState::PresentEmpty))) =>
            CleanupNextView::Finish(Ok(CleanupProgress::StopUnitRequired)),
        (CleanupStage::AwaitingBoundaryState, AnswerView::Boundary(Ok(CgroupEmptyState::Absent))) =>
            CleanupNextView::ProveDisappearance,
        (CleanupStage::DisappearanceProved, _) => match proved {
            Err(e) => CleanupNextView::Finish(Err(e)),
            Ok(()) => if release_pin {
                CleanupNextView::Call(
                    RequestView::UnrefPinnedUnit {
                        invocation_id: identity.invocation_id@,
                        object_path: pinned.object_path@,
                    },
                )
            } else {
                CleanupNextView::Finish(Ok(CleanupProgress::Finished))
            },
        },
        (CleanupStage::AwaitingRelease, AnswerView::Done(Ok(()))) => CleanupNextView::Finish(
            Ok(CleanupProgress::Finished),
        ),
        _ => CleanupNextView::Finish(Err(PayloadScopeError::CleanupFailed)),
    }
}

pub fn cleanup_step<'a>(
    identity: &'a PayloadScopeIdentity,
    pinned: &'a PinnedInvocationUnit,
    control_group: &'a str,
    release_pin: bool,
    stage: CleanupStage,
    answer: &ProviderAnswer,
    proved: Result<(), PayloadScopeError>,
) -> (r: CleanupNext<'a>)
    ensures
        r@ == spec_cleanup_step(
            *identity,
            *pinned,
            control_group@,
            release_pin,
            stage,
            answer@,
            proved,
        ),
{
    match (stage, answer) {
        (CleanupStage::Start, _) => CleanupNext::Call(
            ProviderRequest::ReadBoundaryState {
                invocation_id: identity.invocation_id.as_str(),
                object_path: pinned.object_path.as_str(),
                control_group,
            },
        ),
        (CleanupStage::AwaitingBoundaryState, ProviderAnswer::Boundary(Ok(CgroupEmptyState::PresentEmpty))) =>
            CleanupNext::Finish(Ok(CleanupProgress::StopUnitRequired)),
        (CleanupStage::AwaitingBoundaryState, ProviderAnswer::Boundary(Ok(CgroupEmptyState::Absent))) =>
            CleanupNext::ProveDisappearance,
        (CleanupStage::DisappearanceProved, _) => match proved {
            Err(e) => CleanupNext::Finish(Err(e)),
            Ok(()) => if release_pin {
                CleanupNext::Call(
                    ProviderRequest::UnrefPinnedUnit {
                        invocation_id: identity.invocation_id.as_str(),
                        object_path: pinned.object_path.as_str(),
                    },
                )
            } else {
                CleanupNext::Finish(Ok(CleanupProgress::Finished))
            },
        },
        (CleanupStage::AwaitingRelease, ProviderAnswer::Done(Ok(()))) => CleanupNext::Finish(
            Ok(CleanupProgress::Finished),
        ),
        _ => CleanupNext::Finish(Err(PayloadScopeError::CleanupFailed)),
    }
}

/// The invocation-bound part of pre-commit cleanup. A cgroup that vanished
/// must be proved to have vanished with the pinned unit; then, where asked,
/// the pin is released. It makes exactly the calls `cleanup_step` asks for,
/// with the arguments it gives.
pub fn begin_precommit_cleanup<P: InvocationBoundProvider>(
    provider: &P,
    identity: &PayloadScopeIdentity,
    pinned: &PinnedInvocationUnit,
    control_group: &str,
    release_pin: bool,
) -> (r: Result<CleanupProgress, PayloadScopeError>)
    ensures
        r matches Ok(CleanupProgress::Finished) ==> pinned.reference_held && exists|
            seen: UnitPropertiesView,
        | spec_disappeared_properties_valid(*identity, *pinned, control_group@, seen),
        r matches Err(e) ==> e == PayloadScopeError::CleanupFailed || e
            == PayloadScopeError::UnitReplaced,
        exists|
            state: Result<CgroupEmptyState, InvocationBackendError>,
            first_path: Result<Seq<char>, InvocationBackendError>,
            first: PropertiesAnswer,
            second_path: Result<Seq<char>, InvocationBackendError>,
            second: PropertiesAnswer,
            released: Result<(), InvocationBackendError>,
        |
            r == #[trigger] spec_cleanup_outcome(
                release_pin,
                state,
                spec_disappearance_outcome(
                    *identity,
                    *pinned,
                    control_group@,
                    first_path,
                    first,
                    second_path,
                    second,
                ),
                released,
            ),
{
    let ghost no_path: Result<Seq<char>, InvocationBackendError> = Err(InvocationBackendError::Transport);
    let ghost none: PropertiesAnswer = Err(InvocationBackendError::Transport);
    let ghost cg = control_group@;
    let ghost unproved = spec_disappearance_outcome(*identity, *pinned, cg, no_path, none, no_path, none);
    let nothing = ProviderAnswer::Nothing;
    let state = match cleanup_step(identity, pinned, control_group, release_pin, CleanupStage::Start, &nothing, Ok(())) {
        CleanupNext::Call(ProviderRequest::ReadBoundaryState { invocation_id, object_path, control_group: cgroup }) => {
            ProviderAnswer::Boundary(provider.read_boundary_state(invocation_id, object_path, cgroup))
        },
        _ => {
            return Err(PayloadScopeError::CleanupFailed);
        },
    };
    let ghost st: Result<CgroupEmptyState, InvocationBackendError> = match state@ {
        AnswerView::Boundary(b) => b,
        _ => Err(InvocationBackendError::Transport),
    };
    match cleanup_step(identity, pinned, control_group, release_pin, CleanupStage::AwaitingBoundaryState, &state, Ok(())) {
        CleanupNext::ProveDisappearance => {},
        CleanupNext::Finish(r) => {
            assert(r == spec_cleanup_outcome(release_pin, st, unproved, Ok(())));
            return r;
        },
        _ => {
            return Err(PayloadScopeError::CleanupFailed);
        },
    }
    let proved = prove_precommit_disappearance(provider, identity, pinned, control_group);
    let ghost (w1, w2, w3, w4) = choose|
        first_path: Result<Seq<char>, InvocationBackendError>,
        first: PropertiesAnswer,
        second_path: Result<Seq<char>, InvocationBackendError>,
        second: PropertiesAnswer,
    |
        proved == #[trigger] spec_disappearance_outcome(
            *identity,
            *pinned,
            cg,
            first_path,
            first,
            second_path,
            second,
        );
    let ghost spec_proved = spec_disappearance_outcome(*identity, *pinned, cg, w1, w2, w3, w4);
    let released = match cleanup_step(identity, pinned, control_group, release_pin, CleanupStage::DisappearanceProved, &nothing, proved) {
        CleanupNext::Call(ProviderRequest::UnrefPinnedUnit { invocation_id, object_path }) => {
            ProviderAnswer::Done(provider.unref_pinned_unit(invocation_id, object_path))
        },
        CleanupNext::Finish(r) => {
            assert(r == spec_cleanup_outcome(release_pin, st, spec_proved, Ok(())));
            return r;
        },
        _ => {
            return Err(PayloadScopeError::CleanupFailed);
        },
    };
    let ghost rel: Result<(), InvocationBackendError> = match released@ {
        AnswerView::Done(d) => d,
        _ => Ok(()),
    };
    match cleanup_step(identity, pinned, control_group, release_pin, CleanupStage::AwaitingRelease, &released, proved) {
        CleanupNext::Finish(r) => {
            assert(r == spec_cleanup_outcome(release_pin, st, spec_proved, rel));
            r
        },
        _ => Err(PayloadScopeError::CleanupFailed),
    }
}

/// Before a present, empty scope is stopped, the unit at the pinned path
/// must still carry the expected invocation and the cgroup must be empty.
pub open spec fn spec_stop_allowed(observed_invocation: Seq<u8>, expected: Seq<u8>, members: Seq<u32>) -> bool {
    observed_invocation.len() == INVOCATION_ID_BYTES && spec_hex(observed_invocation) == expected
        && members.len() == 0
}

pub fn check_stop_preconditions(
    observed_invocation: &[u8],
    identity: &PayloadScopeIdentity,
    members: &[u32],
) -> (r: Result<(), PayloadScopeError>)
    ensures
        r is Ok <==> spec_stop_allowed(
            observed_invocation@,
            utf8_bytes(identity.invocation_id@),
            members@,
        ),
        r matches Err(e) ==> e == PayloadScopeError::CleanupFailed,
{
    let observed = match hex_id(observed_invocation) {
        Some(h) => h,
        None => {
            return Err(PayloadScopeError::CleanupFailed);
        },
    };
    if !bytes_equal(string_bytes(&observed), string_bytes(&identity.invocation_id)) || members.len() != 0 {
        return Err(PayloadScopeError::CleanupFailed);
    }
    Ok(())
}

} // verus!
