//! Operations on the payload unit that are bound to its invocation id and
//! pinned object path: pinning, graceful termination, the empty-boundary
//! proof, pre-commit cleanup and release of the pin. No operation here
//! addresses the unit by name.
use vstd::prelude::*;

use crate::payload_scope::{
    is_ancestor, map_invocation_error, running_unit_state, spec_disappeared_properties_valid,
    spec_is_ancestor, spec_map_invocation_error, spec_pinned_properties_valid,
    spec_running_unit_state, spec_terminal_unit_state, spec_transition_properties_valid,
    spec_valid_payload_cgroup, validate_terminal_transition_properties,
    terminal_unit_state, valid_payload_cgroup, validate_disappeared_boundary_properties,
    validate_pinned_properties, CgroupEmptyState, InvocationBackendError, InvocationOperation,
    InvocationUnitProperties, PayloadScopeError, PayloadScopeIdentity, PinnedInvocationUnit,
    ResolvedInvocationState, UnitPropertiesView,
};
use crate::names::{lit_active, lit_dead, lit_failed, lit_inactive};
use crate::termination::{BoundaryEmptyProof, LeaderExit};
use crate::text::{bytes_equal, lemma_utf8_bytes_injective, str_bytes, text_equal, utf8_bytes};

verus! {

/// `SIGTERM` on Linux.
pub const LINUX_SIGTERM: i32 = 15;

/// The system manager, reached only through an expected invocation id and
/// the object path it was pinned at. There is deliberately no operation
/// that addresses a unit by name.
pub trait InvocationBoundProvider: Send + Sync {
    fn resolve_by_invocation(&self, expected_invocation_id: &str) -> Result<
        String,
        InvocationBackendError,
    >;

    fn ref_pinned_unit(&self, expected_invocation_id: &str, expected_object_path: &str) -> Result<
        (),
        InvocationBackendError,
    >;

    fn read_properties(
        &self,
        operation: InvocationOperation,
        expected_invocation_id: &str,
        expected_object_path: &str,
        expected_unit_name: &str,
    ) -> Result<InvocationUnitProperties, InvocationBackendError>;

    fn kill_pinned_unit(
        &self,
        expected_invocation_id: &str,
        expected_object_path: &str,
        signal: i32,
    ) -> Result<(), InvocationBackendError>;

    fn read_boundary_state(
        &self,
        expected_invocation_id: &str,
        expected_object_path: &str,
        control_group: &str,
    ) -> Result<CgroupEmptyState, InvocationBackendError>;

    fn unref_pinned_unit(&self, expected_invocation_id: &str, expected_object_path: &str) -> Result<
        (),
        InvocationBackendError,
    >;
}

/// The cgroup membership of processes, as `/proc` and `cgroup.procs` show it.
pub trait ProcessCgroupReader {
    /// The unified-hierarchy cgroup of a process.
    fn pid_cgroup(&self, pid: u32) -> Result<String, PayloadScopeError>;

    /// The sorted member process ids of a cgroup.
    fn read_members(&self, control_group: &str) -> Result<Vec<u32>, PayloadScopeError>;
}

/// A process lies outside the boundary when its cgroup is neither the
/// boundary nor below it and it is not a member.
pub open spec fn spec_outside_boundary(
    control_group: Seq<char>,
    outside_cgroup: Seq<char>,
    pid: u32,
    members: Seq<u32>,
) -> bool {
    &&& outside_cgroup != control_group
    &&& !spec_is_ancestor(utf8_bytes(control_group), utf8_bytes(outside_cgroup))
    &&& !members.contains(pid)
}

pub fn check_outside_boundary(
    control_group: &str,
    outside_cgroup: &str,
    pid: u32,
    members: &[u32],
) -> (r: Result<(), PayloadScopeError>)
    ensures
        r is Ok <==> spec_outside_boundary(control_group@, outside_cgroup@, pid, members@),
        r matches Err(e) ==> e == PayloadScopeError::WorkerInsideBoundary,
{
    let mut member = false;
    let mut i: usize = 0;
    while i < members.len()
        invariant
            i <= members.len(),
            member == (exists|j: int| 0 <= j < i && members@[j] == pid),
        decreases members.len() - i,
    {
        if members[i] == pid {
            member = true;
        }
        i += 1;
    }
    assert(member == members@.contains(pid));
    if text_equal(outside_cgroup, control_group) || is_ancestor(control_group, outside_cgroup)
        || member {
        return Err(PayloadScopeError::WorkerInsideBoundary);
    }
    Ok(())
}

/// What one step of an invocation-bound operation answered, in the
/// properties' views.
pub type PropertiesAnswer = Result<UnitPropertiesView, InvocationBackendError>;

/// The outcome of pinning, from what the provider answered: the resolution,
/// the reference, and the properties read back after it.
pub open spec fn spec_pin_outcome(
    unit_name: Seq<char>,
    invocation_id: Seq<char>,
    control_group: Seq<char>,
    slice: Seq<char>,
    resolved: Result<Seq<char>, InvocationBackendError>,
    referenced: Result<(), InvocationBackendError>,
    read: PropertiesAnswer,
) -> Result<Seq<char>, PayloadScopeError> {
    match resolved {
        Err(e) => Err(spec_map_invocation_error(e)),
        Ok(path) => match referenced {
            Err(e) => Err(spec_map_invocation_error(e)),
            Ok(()) => match read {
                Err(e) => Err(spec_map_invocation_error(e)),
                Ok(properties) => if spec_post_ref_valid(
                    properties,
                    path,
                    unit_name,
                    invocation_id,
                    control_group,
                    slice,
                ) {
                    Ok(path)
                } else {
                    Err(PayloadScopeError::UnitReplaced)
                },
            },
        },
    }
}

/// A pin's result, by the object path it holds.
pub open spec fn pin_verdict(r: Result<PinnedInvocationUnit, PayloadScopeError>) -> Result<
    Seq<char>,
    PayloadScopeError,
> {
    match r {
        Ok(pinned) => Ok(pinned.object_path@),
        Err(e) => Err(e),
    }
}

/// How far pinning has come: the call whose answer is awaited.
#[derive(Debug, Clone, Copy, PartialEq, Eq, Structural)]
pub enum PinStage {
    Start,
    AwaitingResolution,
    AwaitingReference,
    AwaitingProperties,
}

/// What pinning does next.
#[derive(Debug, PartialEq, Eq)]
pub enum PinNext<'a> {
    /// Make this call.
    Call(ProviderRequest<'a>),
    /// The unit at the resolved path is pinned.
    Pinned,
    /// Stop with this error.
    Fail(PayloadScopeError),
    /// Drop the reference with this call, then stop with this error.
    UnrefThenFail(ProviderRequest<'a>, PayloadScopeError),
}

/// A pinning decision, by the view of the call it asks for.
pub enum PinNextView {
    Call(RequestView),
    Pinned,
    Fail(PayloadScopeError),
    UnrefThenFail(RequestView, PayloadScopeError),
}

impl<'a> View for PinNext<'a> {
    type V = PinNextView;

    open spec fn view(&self) -> PinNextView {
        match *self {
            PinNext::Call(request) => PinNextView::Call(request@),
            PinNext::Pinned => PinNextView::Pinned,
            PinNext::Fail(e) => PinNextView::Fail(e),
            PinNext::UnrefThenFail(request, e) => PinNextView::UnrefThenFail(request@, e),
        }
    }
}

/// The next step of pinning. The invocation is resolved by its id; a
/// reference is taken on the path that came back; the properties are read
/// there. Properties that do not describe the expected running unit, or a
/// failed read, drop the reference again before failing.
pub open spec fn spec_pin_step(
    unit_name: Seq<char>,
    invocation_id: Seq<char>,
    control_group: Seq<char>,
    slice: Seq<char>,
    resolved: Seq<char>,
    stage: PinStage,
    answer: AnswerView,
) -> PinNextView {
    let unref = RequestView::UnrefPinnedUnit { invocation_id, object_path: resolved };
    match (stage, answer) {
        (PinStage::Start, _) => PinNextView::Call(RequestView::ResolveByInvocation { invocation_id }),
        (PinStage::AwaitingResolution, AnswerView::Resolved(Err(e))) => PinNextView::Fail(
            spec_map_invocation_error(e),
        ),
        (PinStage::AwaitingResolution, AnswerView::Resolved(Ok(path))) => PinNextView::Call(
            RequestView::RefPinnedUnit { invocation_id, object_path: path },
        ),
        (PinStage::AwaitingReference, AnswerView::Done(Err(e))) => PinNextView::Fail(
            spec_map_invocation_error(e),
        ),
        (PinStage::AwaitingReference, AnswerView::Done(Ok(()))) => PinNextView::Call(
            RequestView::ReadProperties {
                operation: InvocationOperation::ReadPropertiesAfterRef,
                invocation_id,
                object_path: resolved,
                unit_name,
            },
        ),
        (PinStage::AwaitingProperties, AnswerView::Properties(Err(e))) => PinNextView::UnrefThenFail(
            unref,
            spec_map_invocation_error(e),
        ),
        (PinStage::AwaitingProperties, AnswerView::Properties(Ok(properties))) => if spec_post_ref_valid(
            properties,
            resolved,
            unit_name,
            invocation_id,
            control_group,
            slice,
        ) {
            PinNextView::Pinned
        } else {
            PinNextView::UnrefThenFail(unref, PayloadScopeError::UnitReplaced)
        },
        _ => PinNextView::Fail(PayloadScopeError::InvalidIdentity),
    }
}

pub fn pin_step<'a>(
    unit_name: &'a str,
    invocation_id: &'a str,
    control_group: &'a str,
    slice: &'a str,
    resolved: &'a str,
    stage: PinStage,
    answer: &'a ProviderAnswer,
) -> (r: PinNext<'a>)
    ensures
        r@ == spec_pin_step(
            unit_name@,
            invocation_id@,
            control_group@,
            slice@,
            resolved@,
            stage,
            answer@,
        ),
{
    match (stage, answer) {
        (PinStage::Start, _) => PinNext::Call(ProviderRequest::ResolveByInvocation { invocation_id }),
        (PinStage::AwaitingResolution, ProviderAnswer::Resolved(Err(e))) => PinNext::Fail(
            map_invocation_error(InvocationOperation::ResolveByInvocation, *e),
        ),
        (PinStage::AwaitingResolution, ProviderAnswer::Resolved(Ok(path))) => PinNext::Call(
            ProviderRequest::RefPinnedUnit { invocation_id, object_path: path.as_str() },
        ),
        (PinStage::AwaitingReference, ProviderAnswer::Done(Err(e))) => PinNext::Fail(
            map_invocation_error(InvocationOperation::RefPinnedUnit, *e),
        ),
        (PinStage::AwaitingReference, ProviderAnswer::Done(Ok(()))) => PinNext::Call(
            ProviderRequest::ReadProperties {
                operation: InvocationOperation::ReadPropertiesAfterRef,
                invocation_id,
                object_path: resolved,
                unit_name,
            },
        ),
        (PinStage::AwaitingProperties, ProviderAnswer::Properties(Err(e))) => PinNext::UnrefThenFail(
            ProviderRequest::UnrefPinnedUnit { invocation_id, object_path: resolved },
            map_invocation_error(InvocationOperation::ReadPropertiesAfterRef, *e),
        ),
        (PinStage::AwaitingProperties, ProviderAnswer::Properties(Ok(properties))) => {
            match check_post_ref_properties(
                properties,
                resolved,
                unit_name,
                invocation_id,
                control_group,
                slice,
            ) {
                Ok(()) => PinNext::Pinned,
                Err(e) => PinNext::UnrefThenFail(
                    ProviderRequest::UnrefPinnedUnit { invocation_id, object_path: resolved },
                    e,
                ),
            }
        },
        _ => PinNext::Fail(PayloadScopeError::InvalidIdentity),
    }
}

/// Pins the unit of an invocation: resolves it by invocation id, takes a
/// reference on that object path, and reads its properties back. Where
/// they do not describe the expected running unit the reference is dropped
/// again.
///
/// It makes exactly the calls `pin_step` asks for, with the arguments it
/// gives.
pub fn pin_invocation_unit<P: InvocationBoundProvider>(
    provider: &P,
    unit_name: &str,
    invocation_id: &str,
    control_group: &str,
    slice: &str,
) -> (r: Result<PinnedInvocationUnit, PayloadScopeError>)
    ensures
        r matches Ok(pinned) ==> pinned.reference_held,
        exists|
            resolved: Result<Seq<char>, InvocationBackendError>,
            referenced: Result<(), InvocationBackendError>,
            read: PropertiesAnswer,
        |
            pin_verdict(r) == #[trigger] spec_pin_outcome(
                unit_name@,
                invocation_id@,
                control_group@,
                slice@,
                resolved,
                referenced,
                read,
            ),
{
    let ghost no_read: PropertiesAnswer = Err(InvocationBackendError::Transport);
    let start = ProviderAnswer::Nothing;
    let resolution = match pin_step(unit_name, invocation_id, control_group, slice, "", PinStage::Start, &start) {
        PinNext::Call(ProviderRequest::ResolveByInvocation { invocation_id: id }) => {
            ProviderAnswer::Resolved(provider.resolve_by_invocation(id))
        },
        _ => {
            return Err(PayloadScopeError::InvalidIdentity);
        },
    };
    let ghost res: Result<Seq<char>, InvocationBackendError> = match resolution@ {
        AnswerView::Resolved(a) => a,
        _ => Err(InvocationBackendError::Transport),
    };
    let reference = match pin_step(unit_name, invocation_id, control_group, slice, "", PinStage::AwaitingResolution, &resolution) {
        PinNext::Call(ProviderRequest::RefPinnedUnit { invocation_id: id, object_path }) => {
            ProviderAnswer::Done(provider.ref_pinned_unit(id, object_path))
        },
        PinNext::Fail(e) => {
            assert(pin_verdict(Err(e)) == spec_pin_outcome(
                unit_name@, invocation_id@, control_group@, slice@, res, Ok(()), no_read));
            return Err(e);
        },
        _ => {
            return Err(PayloadScopeError::InvalidIdentity);
        },
    };
    let object_path = match resolution {
        ProviderAnswer::Resolved(Ok(path)) => path,
        _ => {
            return Err(PayloadScopeError::InvalidIdentity);
        },
    };
    let ghost referenced: Result<(), InvocationBackendError> = match reference@ {
        AnswerView::Done(d) => d,
        _ => Ok(()),
    };
    let properties = match pin_step(unit_name, invocation_id, control_group, slice, object_path.as_str(), PinStage::AwaitingReference, &reference) {
        PinNext::Call(ProviderRequest::ReadProperties { operation, invocation_id: id, object_path: path, unit_name: name }) => {
            ProviderAnswer::Properties(provider.read_properties(operation, id, path, name))
        },
        PinNext::Fail(e) => {
            assert(pin_verdict(Err(e)) == spec_pin_outcome(
                unit_name@, invocation_id@, control_group@, slice@, res, referenced, no_read));
            return Err(e);
        },
        _ => {
            return Err(PayloadScopeError::InvalidIdentity);
        },
    };
    let ghost read: PropertiesAnswer = match properties@ {
        AnswerView::Properties(a) => a,
        _ => no_read,
    };
    match pin_step(unit_name, invocation_id, control_group, slice, object_path.as_str(), PinStage::AwaitingProperties, &properties) {
        PinNext::Pinned => {},
        PinNext::UnrefThenFail(ProviderRequest::UnrefPinnedUnit { invocation_id: id, object_path: path }, e) => {
            let _ = provider.unref_pinned_unit(id, path);
            assert(pin_verdict(Err(e)) == spec_pin_outcome(
                unit_name@, invocation_id@, control_group@, slice@, res, referenced, read));
            return Err(e);
        },
        _ => {
            return Err(PayloadScopeError::InvalidIdentity);
        },
    }
    let pinned = PinnedInvocationUnit { object_path, reference_held: true };
    let r = Ok(pinned);
    assert(pin_verdict(r) == spec_pin_outcome(
        unit_name@, invocation_id@, control_group@, slice@, res, referenced, read));
    r
}

/// The properties read right after taking the reference must name the
/// resolved object, the expected unit, invocation, cgroup and slice, and a
/// transient unit that is active and running.
pub open spec fn spec_post_ref_valid(
    properties: crate::payload_scope::UnitPropertiesView,
    object_path: Seq<char>,
    unit_name: Seq<char>,
    invocation_id: Seq<char>,
    control_group: Seq<char>,
    slice: Seq<char>,
) -> bool {
    &&& properties.object_path == object_path
    &&& properties.id == unit_name
    &&& properties.invocation_id == invocation_id
    &&& properties.control_group == control_group
    &&& properties.slice == slice
    &&& spec_running_unit_state(
        utf8_bytes(properties.active_state),
        utf8_bytes(properties.sub_state),
    )
    &&& properties.transient
}

pub fn check_post_ref_properties(
    properties: &InvocationUnitProperties,
    object_path: &str,
    unit_name: &str,
    invocation_id: &str,
    control_group: &str,
    slice: &str,
) -> (r: Result<(), PayloadScopeError>)
    ensures
        r is Ok <==> spec_post_ref_valid(
            properties@,
            object_path@,
            unit_name@,
            invocation_id@,
            control_group@,
            slice@,
        ),
        r matches Err(e) ==> e == PayloadScopeError::UnitReplaced,
{
    if !text_equal(properties.object_path.as_str(), object_path) || !text_equal(
        properties.id.as_str(),
        unit_name,
    ) || !text_equal(properties.invocation_id.as_str(), invocation_id) || !text_equal(
        properties.control_group.as_str(),
        control_group,
    ) || !text_equal(properties.slice.as_str(), slice) || !running_unit_state(
        properties.active_state.as_str(),
        properties.sub_state.as_str(),
    ) || !properties.transient {
        Err(PayloadScopeError::UnitReplaced)
    } else {
        Ok(())
    }
}

/// The resolved object path must be the pinned one.
pub fn check_resolved_path(resolved: &str, pinned: &PinnedInvocationUnit) -> (r: Result<
    (),
    PayloadScopeError,
>)
    ensures
        r is Ok <==> resolved@ == pinned.object_path@,
        r matches Err(e) ==> e == PayloadScopeError::UnitReplaced,
{
    if !text_equal(resolved, pinned.object_path.as_str()) {
        Err(PayloadScopeError::UnitReplaced)
    } else {
        Ok(())
    }
}

/// The outcome of a graceful termination request, from what the provider
/// answered: the resolution, the properties read before the signal, the
/// signal itself, and the properties read after it. The signal is sent only
/// to a unit that resolved to the pinned path and is eligible; its failure
/// is reported as the transport reports it.
pub open spec fn spec_graceful_outcome(
    identity: PayloadScopeIdentity,
    pinned: PinnedInvocationUnit,
    control_group: Seq<char>,
    resolved: Result<Seq<char>, InvocationBackendError>,
    before: PropertiesAnswer,
    killed: Result<(), InvocationBackendError>,
    after: PropertiesAnswer,
) -> Result<(), PayloadScopeError> {
    if !pinned.reference_held {
        Err(PayloadScopeError::InvalidIdentity)
    } else {
        match resolved {
            Err(e) => Err(spec_map_invocation_error(e)),
            Ok(path) => if path != pinned.object_path@ {
                Err(PayloadScopeError::UnitReplaced)
            } else {
                match before {
                    Err(e) => Err(spec_map_invocation_error(e)),
                    Ok(properties) => if !spec_pinned_properties_valid(
                        identity,
                        pinned,
                        control_group,
                        properties,
                    ) {
                        Err(PayloadScopeError::UnitReplaced)
                    } else if !spec_running_unit_state(
                        utf8_bytes(properties.active_state),
                        utf8_bytes(properties.sub_state),
                    ) {
                        Err(PayloadScopeError::InvalidIdentity)
                    } else {
                        match killed {
                            Err(e) => Err(spec_map_invocation_error(e)),
                            Ok(()) => match after {
                                Err(e) => Err(spec_map_invocation_error(e)),
                                Ok(later) => if spec_transition_properties_valid(
                                    identity,
                                    pinned,
                                    control_group,
                                    later,
                                ) {
                                    Ok(())
                                } else {
                                    Err(PayloadScopeError::UnitReplaced)
                                },
                            },
                        }
                    },
                }
            },
        }
    }
}

/// A call to the system manager, with its arguments.
#[derive(Debug, PartialEq, Eq)]
pub enum ProviderRequest<'a> {
    ResolveByInvocation { invocation_id: &'a str },
    RefPinnedUnit { invocation_id: &'a str, object_path: &'a str },
    ReadProperties {
        operation: InvocationOperation,
        invocation_id: &'a str,
        object_path: &'a str,
        unit_name: &'a str,
    },
    KillPinnedUnit { invocation_id: &'a str, object_path: &'a str, signal: i32 },
    ReadBoundaryState { invocation_id: &'a str, object_path: &'a str, control_group: &'a str },
    UnrefPinnedUnit { invocation_id: &'a str, object_path: &'a str },
}

/// How far a graceful termination request has come: the call whose answer
/// is awaited.
#[derive(Debug, Clone, Copy, PartialEq, Eq, Structural)]
pub enum GracefulStage {
    Start,
    AwaitingResolution,
    AwaitingEligibility,
    AwaitingKill,
    AwaitingPostKillRead,
}

/// What the last call answered.
#[derive(Debug)]
pub enum ProviderAnswer {
    Nothing,
    Resolved(Result<String, InvocationBackendError>),
    Properties(Result<InvocationUnitProperties, InvocationBackendError>),
    Boundary(Result<CgroupEmptyState, InvocationBackendError>),
    Done(Result<(), InvocationBackendError>),
    Cgroup(Result<String, PayloadScopeError>),
}

/// What a graceful termination request does next.
#[derive(Debug, PartialEq, Eq)]
pub enum ProviderNext<'a> {
    Call(ProviderRequest<'a>),
    Finish(Result<(), PayloadScopeError>),
}

/// A call to the system manager, by the views of its arguments.
pub enum RequestView {
    ResolveByInvocation { invocation_id: Seq<char> },
    RefPinnedUnit { invocation_id: Seq<char>, object_path: Seq<char> },
    ReadProperties {
        operation: InvocationOperation,
        invocation_id: Seq<char>,
        object_path: Seq<char>,
        unit_name: Seq<char>,
    },
    KillPinnedUnit { invocation_id: Seq<char>, object_path: Seq<char>, signal: i32 },
    ReadBoundaryState { invocation_id: Seq<char>, object_path: Seq<char>, control_group: Seq<char> },
    UnrefPinnedUnit { invocation_id: Seq<char>, object_path: Seq<char> },
}

impl<'a> View for ProviderRequest<'a> {
    type V = RequestView;

    open spec fn view(&self) -> RequestView {
        match *self {
            ProviderRequest::ResolveByInvocation { invocation_id } => RequestView::ResolveByInvocation {
                invocation_id: invocation_id@,
            },
            ProviderRequest::RefPinnedUnit { invocation_id, object_path } => RequestView::RefPinnedUnit {
                invocation_id: invocation_id@,
                object_path: object_path@,
            },
            ProviderRequest::ReadProperties { operation, invocation_id, object_path, unit_name } =>
                RequestView::ReadProperties {
                operation,
                invocation_id: invocation_id@,
                object_path: object_path@,
                unit_name: unit_name@,
            },
            ProviderRequest::KillPinnedUnit { invocation_id, object_path, signal } =>
                RequestView::KillPinnedUnit {
                invocation_id: invocation_id@,
                object_path: object_path@,
                signal,
            },
            ProviderRequest::ReadBoundaryState { invocation_id, object_path, control_group } =>
                RequestView::ReadBoundaryState {
                invocation_id: invocation_id@,
                object_path: object_path@,
                control_group: control_group@,
            },
            ProviderRequest::UnrefPinnedUnit { invocation_id, object_path } => RequestView::UnrefPinnedUnit {
                invocation_id: invocation_id@,
                object_path: object_path@,
            },
        }
    }
}

/// A provider's answer, by its view.
pub enum AnswerView {
    Nothing,
    Resolved(Result<Seq<char>, InvocationBackendError>),
    Properties(PropertiesAnswer),
    Boundary(Result<CgroupEmptyState, InvocationBackendError>),
    Done(Result<(), InvocationBackendError>),
    Cgroup(Result<Seq<char>, PayloadScopeError>),
}

impl View for ProviderAnswer {
    type V = AnswerView;

    open spec fn view(&self) -> AnswerView {
        match *self {
            ProviderAnswer::Nothing => AnswerView::Nothing,
            ProviderAnswer::Resolved(Ok(path)) => AnswerView::Resolved(Ok(path@)),
            ProviderAnswer::Resolved(Err(e)) => AnswerView::Resolved(Err(e)),
            ProviderAnswer::Properties(Ok(p)) => AnswerView::Properties(Ok(p@)),
            ProviderAnswer::Properties(Err(e)) => AnswerView::Properties(Err(e)),
            ProviderAnswer::Boundary(b) => AnswerView::Boundary(b),
            ProviderAnswer::Done(d) => AnswerView::Done(d),
            ProviderAnswer::Cgroup(Ok(path)) => AnswerView::Cgroup(Ok(path@)),
            ProviderAnswer::Cgroup(Err(e)) => AnswerView::Cgroup(Err(e)),
        }
    }
}

/// A step's decision, by the view of the call it asks for.
pub enum NextView {
    Call(RequestView),
    Finish(Result<(), PayloadScopeError>),
}

impl<'a> View for ProviderNext<'a> {
    type V = NextView;

    open spec fn view(&self) -> NextView {
        match *self {
            ProviderNext::Call(request) => NextView::Call(request@),
            ProviderNext::Finish(r) => NextView::Finish(r),
        }
    }
}

/// The error a property read that did not make the unit eligible for the
/// signal gives.
pub open spec fn spec_ineligibility(
    identity: PayloadScopeIdentity,
    pinned: PinnedInvocationUnit,
    control_group: Seq<char>,
    properties: UnitPropertiesView,
) -> PayloadScopeError {
    if spec_pinned_properties_valid(identity, pinned, control_group, properties) {
        PayloadScopeError::InvalidIdentity
    } else {
        PayloadScopeError::UnitReplaced
    }
}

/// The next step of a graceful termination request. A released pin is
/// refused at once. Otherwise the invocation is resolved by its id; the
/// pinned path must come back; the unit's properties are read at that path
/// and must make it eligible; then `SIGTERM` goes to the pinned path of the
/// invocation, once; then the properties are read again and must still
/// describe the pinned unit. A failed call ends the request with the error
/// the transport maps it to.
pub open spec fn spec_graceful_step(
    identity: PayloadScopeIdentity,
    pinned: PinnedInvocationUnit,
    control_group: Seq<char>,
    stage: GracefulStage,
    answer: AnswerView,
) -> NextView {
    match (stage, answer) {
        (GracefulStage::Start, _) => if !pinned.reference_held {
            NextView::Finish(Err(PayloadScopeError::InvalidIdentity))
        } else {
            NextView::Call(RequestView::ResolveByInvocation { invocation_id: identity.invocation_id@ })
        },
        (GracefulStage::AwaitingResolution, AnswerView::Resolved(Err(e))) => NextView::Finish(
            Err(spec_map_invocation_error(e)),
        ),
        (GracefulStage::AwaitingResolution, AnswerView::Resolved(Ok(path))) => if path
            != pinned.object_path@ {
            NextView::Finish(Err(PayloadScopeError::UnitReplaced))
        } else {
            NextView::Call(
                RequestView::ReadProperties {
                    operation: InvocationOperation::ReadPropertiesAfterRef,
                    invocation_id: identity.invocation_id@,
                    object_path: pinned.object_path@,
                    unit_name: identity.unit_name@,
                },
            )
        },
        (GracefulStage::AwaitingEligibility, AnswerView::Properties(Err(e))) => NextView::Finish(
            Err(spec_map_invocation_error(e)),
        ),
        (GracefulStage::AwaitingEligibility, AnswerView::Properties(Ok(properties))) => if !spec_kill_eligible(
            identity,
            pinned,
            control_group,
            properties,
        ) {
            NextView::Finish(Err(spec_ineligibility(identity, pinned, control_group, properties)))
        } else {
            NextView::Call(
                RequestView::KillPinnedUnit {
                    invocation_id: identity.invocation_id@,
                    object_path: pinned.object_path@,
                    signal: LINUX_SIGTERM,
                },
            )
        },
        (GracefulStage::AwaitingKill, AnswerView::Done(Err(e))) => NextView::Finish(
            Err(spec_map_invocation_error(e)),
        ),
        (GracefulStage::AwaitingKill, AnswerView::Done(Ok(()))) => NextView::Call(
            RequestView::ReadProperties {
                operation: InvocationOperation::ReadPropertiesAfterKill,
                invocation_id: identity.invocation_id@,
                object_path: pinned.object_path@,
                unit_name: identity.unit_name@,
            },
        ),
        (GracefulStage::AwaitingPostKillRead, AnswerView::Properties(Err(e))) => NextView::Finish(
            Err(spec_map_invocation_error(e)),
        ),
        (GracefulStage::AwaitingPostKillRead, AnswerView::Properties(Ok(later))) => NextView::Finish(
            if spec_transition_properties_valid(identity, pinned, control_group, later) {
                Ok(())
            } else {
                Err(PayloadScopeError::UnitReplaced)
            },
        ),
        _ => NextView::Finish(Err(PayloadScopeError::InvalidIdentity)),
    }
}

pub fn graceful_step<'a>(
    identity: &'a PayloadScopeIdentity,
    pinned: &'a PinnedInvocationUnit,
    control_group: &'a str,
    stage: GracefulStage,
    answer: &ProviderAnswer,
) -> (r: ProviderNext<'a>)
    ensures
        r@ == spec_graceful_step(*identity, *pinned, control_group@, stage, answer@),
{
    match (stage, answer) {
        (GracefulStage::Start, _) => if !pinned.reference_held {
            ProviderNext::Finish(Err(PayloadScopeError::InvalidIdentity))
        } else {
            ProviderNext::Call(
                ProviderRequest::ResolveByInvocation { invocation_id: identity.invocation_id.as_str() },
            )
        },
        (GracefulStage::AwaitingResolution, ProviderAnswer::Resolved(Err(e))) => ProviderNext::Finish(
            Err(map_invocation_error(InvocationOperation::ResolveByInvocation, *e)),
        ),
        (GracefulStage::AwaitingResolution, ProviderAnswer::Resolved(Ok(path))) => {
            match check_resolved_path(path.as_str(), pinned) {
                Err(e) => ProviderNext::Finish(Err(e)),
                Ok(()) => ProviderNext::Call(
                    ProviderRequest::ReadProperties {
                        operation: InvocationOperation::ReadPropertiesAfterRef,
                        invocation_id: identity.invocation_id.as_str(),
                        object_path: pinned.object_path.as_str(),
                        unit_name: identity.unit_name.as_str(),
                    },
                ),
            }
        },
        (GracefulStage::AwaitingEligibility, ProviderAnswer::Properties(Err(e))) => ProviderNext::Finish(
            Err(map_invocation_error(InvocationOperation::ReadPropertiesAfterRef, *e)),
        ),
        (GracefulStage::AwaitingEligibility, ProviderAnswer::Properties(Ok(properties))) => {
            match check_kill_eligibility(identity, pinned, control_group, properties) {
                Err(e) => ProviderNext::Finish(Err(e)),
                Ok(()) => ProviderNext::Call(
                    ProviderRequest::KillPinnedUnit {
                        invocation_id: identity.invocation_id.as_str(),
                        object_path: pinned.object_path.as_str(),
                        signal: LINUX_SIGTERM,
                    },
                ),
            }
        },
        (GracefulStage::AwaitingKill, ProviderAnswer::Done(Err(e))) => ProviderNext::Finish(
            Err(map_invocation_error(InvocationOperation::KillPinnedUnit, *e)),
        ),
        (GracefulStage::AwaitingKill, ProviderAnswer::Done(Ok(()))) => ProviderNext::Call(
            ProviderRequest::ReadProperties {
                operation: InvocationOperation::ReadPropertiesAfterKill,
                invocation_id: identity.invocation_id.as_str(),
                object_path: pinned.object_path.as_str(),
                unit_name: identity.unit_name.as_str(),
            },
        ),
        (GracefulStage::AwaitingPostKillRead, ProviderAnswer::Properties(Err(e))) => ProviderNext::Finish(
            Err(map_invocation_error(InvocationOperation::ReadPropertiesAfterKill, *e)),
        ),
        (GracefulStage::AwaitingPostKillRead, ProviderAnswer::Properties(Ok(later))) => {
            match validate_terminal_transition_properties(identity, pinned, control_group, later) {
                Ok(()) => ProviderNext::Finish(Ok(())),
                Err(e) => ProviderNext::Finish(Err(e)),
            }
        },
        _ => ProviderNext::Finish(Err(PayloadScopeError::InvalidIdentity)),
    }
}

/// Asks the pinned unit to stop with `SIGTERM`, after resolving the
/// invocation to the pinned path and finding the unit still running, and
/// checks the unit's identity once more after the signal. It makes exactly
/// the calls `graceful_step` asks for, with the arguments it gives.
pub fn request_graceful_termination_invocation<P: InvocationBoundProvider>(
    provider: &P,
    identity: &PayloadScopeIdentity,
    pinned_unit: &PinnedInvocationUnit,
    control_group: &str,
) -> (r: Result<(), PayloadScopeError>)
    ensures
        !pinned_unit.reference_held ==> r == Err::<(), PayloadScopeError>(
            PayloadScopeError::InvalidIdentity,
        ),
        r is Ok ==> exists|seen: UnitPropertiesView|
            spec_kill_eligible(*identity, *pinned_unit, control_group@, seen),
        exists|
            resolved: Result<Seq<char>, InvocationBackendError>,
            before: PropertiesAnswer,
            killed: Result<(), InvocationBackendError>,
            after: PropertiesAnswer,
        |
            r == #[trigger] spec_graceful_outcome(
                *identity,
                *pinned_unit,
                control_group@,
                resolved,
                before,
                killed,
                after,
            ),
{
    let ghost none: PropertiesAnswer = Err(InvocationBackendError::Transport);
    let ghost cg = control_group@;
    let resolved = match graceful_step(identity, pinned_unit, control_group, GracefulStage::Start, &ProviderAnswer::Nothing) {
        ProviderNext::Call(ProviderRequest::ResolveByInvocation { invocation_id }) => {
            provider.resolve_by_invocation(invocation_id)
        },
        ProviderNext::Finish(r) => {
            assert(r == spec_graceful_outcome(*identity, *pinned_unit, cg, Ok(Seq::empty()), none, Ok(()), none));
            return r;
        },
        _ => {
            return Err(PayloadScopeError::InvalidIdentity);
        },
    };
    let ghost res: Result<Seq<char>, InvocationBackendError> = match &resolved {
        Ok(p) => Ok(p@),
        Err(e) => Err(*e),
    };
    let before = match graceful_step(identity, pinned_unit, control_group, GracefulStage::AwaitingResolution, &ProviderAnswer::Resolved(resolved)) {
        ProviderNext::Call(ProviderRequest::ReadProperties { operation, invocation_id, object_path, unit_name }) => {
            provider.read_properties(operation, invocation_id, object_path, unit_name)
        },
        ProviderNext::Finish(r) => {
            assert(r == spec_graceful_outcome(*identity, *pinned_unit, cg, res, none, Ok(()), none));
            return r;
        },
        _ => {
            return Err(PayloadScopeError::InvalidIdentity);
        },
    };
    let ghost bef: PropertiesAnswer = match &before {
        Ok(p) => Ok(p@),
        Err(e) => Err(*e),
    };
    let killed = match graceful_step(identity, pinned_unit, control_group, GracefulStage::AwaitingEligibility, &ProviderAnswer::Properties(before)) {
        ProviderNext::Call(request) => perform_kill(provider, identity, pinned_unit, request),
        ProviderNext::Finish(r) => {
            assert(r == spec_graceful_outcome(*identity, *pinned_unit, cg, res, bef, Ok(()), none));
            return r;
        },
        _ => {
            return Err(PayloadScopeError::InvalidIdentity);
        },
    };
    let ghost kil = killed;
    let after = match graceful_step(identity, pinned_unit, control_group, GracefulStage::AwaitingKill, &ProviderAnswer::Done(killed)) {
        ProviderNext::Call(ProviderRequest::ReadProperties { operation, invocation_id, object_path, unit_name }) => {
            provider.read_properties(operation, invocation_id, object_path, unit_name)
        },
        ProviderNext::Finish(r) => {
            assert(r == spec_graceful_outcome(*identity, *pinned_unit, cg, res, bef, kil, none));
            return r;
        },
        _ => {
            return Err(PayloadScopeError::InvalidIdentity);
        },
    };
    let ghost aft: PropertiesAnswer = match &after {
        Ok(p) => Ok(p@),
        Err(e) => Err(*e),
    };
    match graceful_step(identity, pinned_unit, control_group, GracefulStage::AwaitingPostKillRead, &ProviderAnswer::Properties(after)) {
        ProviderNext::Finish(r) => {
            assert(r == spec_graceful_outcome(*identity, *pinned_unit, cg, res, bef, kil, aft));
            r
        },
        _ => Err(PayloadScopeError::InvalidIdentity),
    }
}

/// A signal may be sent only to a pinned unit that still is what it was
/// pinned as and is active and running.
pub open spec fn spec_kill_eligible(
    identity: PayloadScopeIdentity,
    pinned: PinnedInvocationUnit,
    control_group: Seq<char>,
    properties: crate::payload_scope::UnitPropertiesView,
) -> bool {
    &&& spec_pinned_properties_valid(identity, pinned, control_group, properties)
    &&& spec_running_unit_state(
        utf8_bytes(properties.active_state),
        utf8_bytes(properties.sub_state),
    )
}

pub fn check_kill_eligibility(
    identity: &PayloadScopeIdentity,
    pinned: &PinnedInvocationUnit,
    control_group: &str,
    properties: &InvocationUnitProperties,
) -> (r: Result<(), PayloadScopeError>)
    ensures
        r is Ok <==> spec_kill_eligible(*identity, *pinned, control_group@, properties@),
        r matches Err(e) ==> (if spec_pinned_properties_valid(
            *identity,
            *pinned,
            control_group@,
            properties@,
        ) {
            e == PayloadScopeError::InvalidIdentity
        } else {
            e == PayloadScopeError::UnitReplaced
        }),
{
    if let Err(e) = validate_pinned_properties(identity, pinned, control_group, properties) {
        return Err(e);
    }
    if !running_unit_state(properties.active_state.as_str(), properties.sub_state.as_str()) {
        return Err(PayloadScopeError::InvalidIdentity);
    }
    Ok(())
}

/// The outcome of the boundary checks before a graceful termination, from
/// what was read: the boundary's members, then the cgroup of the worker and
/// then that of the launcher, each of which must lie outside the boundary.
pub open spec fn spec_outside_checks(
    control_group: Seq<char>,
    members: Result<Seq<u32>, PayloadScopeError>,
    worker_pid: u32,
    worker: Result<Seq<char>, PayloadScopeError>,
    launcher_pid: u32,
    launcher: Result<Seq<char>, PayloadScopeError>,
) -> Result<(), PayloadScopeError> {
    match members {
        Err(e) => Err(e),
        Ok(m) => match worker {
            Err(e) => Err(e),
            Ok(w) => if !spec_outside_boundary(control_group, w, worker_pid, m) {
                Err(PayloadScopeError::WorkerInsideBoundary)
            } else {
                match launcher {
                    Err(e) => Err(e),
                    Ok(l) => if !spec_outside_boundary(control_group, l, launcher_pid, m) {
                        Err(PayloadScopeError::WorkerInsideBoundary)
                    } else {
                        Ok(())
                    },
                }
            },
        },
    }
}

/// The outcome of a graceful termination with its boundary checks: the
/// checks first, then the request to the pinned unit.
pub open spec fn spec_termination_outcome(
    identity: PayloadScopeIdentity,
    pinned: PinnedInvocationUnit,
    control_group: Seq<char>,
    worker_pid: u32,
    launcher_pid: u32,
    members: Result<Seq<u32>, PayloadScopeError>,
    worker: Result<Seq<char>, PayloadScopeError>,
    launcher: Result<Seq<char>, PayloadScopeError>,
    resolved: Result<Seq<char>, InvocationBackendError>,
    before: PropertiesAnswer,
    killed: Result<(), InvocationBackendError>,
    after: PropertiesAnswer,
) -> Result<(), PayloadScopeError> {
    match spec_outside_checks(control_group, members, worker_pid, worker, launcher_pid, launcher) {
        Err(e) => Err(e),
        Ok(()) => spec_graceful_outcome(identity, pinned, control_group, resolved, before, killed, after),
    }
}

/// Graceful termination, after checking that the worker and the launcher
/// are both outside the payload boundary.
pub fn request_graceful_termination<P: InvocationBoundProvider, C: ProcessCgroupReader>(
    provider: &P,
    cgroups: &C,
    identity: &PayloadScopeIdentity,
    pinned_unit: &PinnedInvocationUnit,
    control_group: &str,
    worker_pid: u32,
    launcher_pid: u32,
) -> (r: Result<(), PayloadScopeError>)
    ensures
        r is Ok ==> exists|members: Seq<u32>, worker_cgroup: Seq<char>, launcher_cgroup: Seq<char>|
            spec_outside_boundary(control_group@, worker_cgroup, worker_pid, members)
                && spec_outside_boundary(control_group@, launcher_cgroup, launcher_pid, members),
        r is Ok ==> exists|seen: UnitPropertiesView|
            spec_kill_eligible(*identity, *pinned_unit, control_group@, seen),
        exists|
            members: Result<Seq<u32>, PayloadScopeError>,
            worker: Result<Seq<char>, PayloadScopeError>,
            launcher: Result<Seq<char>, PayloadScopeError>,
            resolved: Result<Seq<char>, InvocationBackendError>,
            before: PropertiesAnswer,
            killed: Result<(), InvocationBackendError>,
            after: PropertiesAnswer,
        |
            r == #[trigger] spec_termination_outcome(
                *identity,
                *pinned_unit,
                control_group@,
                worker_pid,
                launcher_pid,
                members,
                worker,
                launcher,
                resolved,
                before,
                killed,
                after,
            ),
{
    let ghost cg = control_group@;
    let ghost none: PropertiesAnswer = Err(InvocationBackendError::Transport);
    let ghost no_path: Result<Seq<char>, InvocationBackendError> = Err(InvocationBackendError::Transport);
    let ghost no_text: Result<Seq<char>, PayloadScopeError> = Err(PayloadScopeError::InvalidMembership);
    let members = match cgroups.read_members(control_group) {
        Ok(m) => m,
        Err(e) => {
            assert(spec_termination_outcome(*identity, *pinned_unit, cg, worker_pid, launcher_pid, Err(e), no_text, no_text, no_path, none, Ok(()), none)
            == Err::<(), PayloadScopeError>(e));
            return Err(e);
        },
    };
    let ghost m: Result<Seq<u32>, PayloadScopeError> = Ok(members@);
    let worker = match cgroups.pid_cgroup(worker_pid) {
        Ok(c) => c,
        Err(e) => {
            assert(spec_termination_outcome(*identity, *pinned_unit, cg, worker_pid, launcher_pid, m, Err(e), no_text, no_path, none, Ok(()), none)
            == Err::<(), PayloadScopeError>(e));
            return Err(e);
        },
    };
    let ghost w: Result<Seq<char>, PayloadScopeError> = Ok(worker@);
    if let Err(e) = check_outside_boundary(control_group, worker.as_str(), worker_pid, members.as_slice()) {
        assert(spec_termination_outcome(*identity, *pinned_unit, cg, worker_pid, launcher_pid, m, w, no_text, no_path, none, Ok(()), none)
            == Err::<(), PayloadScopeError>(e));
        return Err(e);
    }
    let launcher = match cgroups.pid_cgroup(launcher_pid) {
        Ok(c) => c,
        Err(e) => {
            assert(spec_termination_outcome(*identity, *pinned_unit, cg, worker_pid, launcher_pid, m, w, Err(e), no_path, none, Ok(()), none)
            == Err::<(), PayloadScopeError>(e));
            return Err(e);
        },
    };
    let ghost l: Result<Seq<char>, PayloadScopeError> = Ok(launcher@);
    if let Err(e) = check_outside_boundary(control_group, launcher.as_str(), launcher_pid, members.as_slice()) {
        assert(spec_termination_outcome(*identity, *pinned_unit, cg, worker_pid, launcher_pid, m, w, l, no_path, none, Ok(()), none)
            == Err::<(), PayloadScopeError>(e));
        return Err(e);
    }
    assert(spec_outside_checks(cg, m, worker_pid, w, launcher_pid, l) == Ok::<(), PayloadScopeError>(()));
    assert(spec_outside_boundary(cg, worker@, worker_pid, members@));
    assert(spec_outside_boundary(cg, launcher@, launcher_pid, members@));
    let r = request_graceful_termination_invocation(provider, identity, pinned_unit, control_group);
    proof {
        let (a, b, c, d) = choose|
            resolved: Result<Seq<char>, InvocationBackendError>,
            before: PropertiesAnswer,
            killed: Result<(), InvocationBackendError>,
            after: PropertiesAnswer,
        |
            r == #[trigger] spec_graceful_outcome(
                *identity,
                *pinned_unit,
                cg,
                resolved,
                before,
                killed,
                after,
            );
        assert(r == spec_termination_outcome(*identity, *pinned_unit, cg, worker_pid, launcher_pid, m, w, l, a, b, c, d));
    }
    r
}

/// The outcome of a boundary check, from what the provider answered: the
/// resolution must name the pinned path, and properties that still
/// describe the pinned unit say whether it is terminal.
pub open spec fn spec_terminal_check_outcome(
    identity: PayloadScopeIdentity,
    pinned: PinnedInvocationUnit,
    control_group: Seq<char>,
    resolved: Result<Seq<char>, InvocationBackendError>,
    read: PropertiesAnswer,
) -> Result<bool, PayloadScopeError> {
    match resolved {
        Err(e) => Err(spec_map_invocation_error(e)),
        Ok(path) => if path != pinned.object_path@ {
            Err(PayloadScopeError::UnitReplaced)
        } else {
            match read {
                Err(e) => Err(spec_map_invocation_error(e)),
                Ok(properties) => if spec_transition_properties_valid(
                    identity,
                    pinned,
                    control_group,
                    properties,
                ) {
                    Ok(
                        spec_terminal_unit_state(
                            utf8_bytes(properties.active_state),
                            utf8_bytes(properties.sub_state),
                        ),
                    )
                } else {
                    Err(PayloadScopeError::UnitReplaced)
                },
            }
        },
    }
}

/// How far a boundary check has come: the call whose answer is awaited.
#[derive(Debug, Clone, Copy, PartialEq, Eq, Structural)]
pub enum TerminalCheckStage {
    Start,
    AwaitingResolution,
    AwaitingProperties,
}

/// What a boundary check does next.
#[derive(Debug, PartialEq, Eq)]
pub enum TerminalCheckNext<'a> {
    Call(ProviderRequest<'a>),
    Finish(Result<bool, PayloadScopeError>),
}

/// A boundary check's decision, by the view of the call it asks for.
pub enum TerminalCheckView {
    Call(RequestView),
    Finish(Result<bool, PayloadScopeError>),
}

impl<'a> View for TerminalCheckNext<'a> {
    type V = TerminalCheckView;

    open spec fn view(&self) -> TerminalCheckView {
        match *self {
            TerminalCheckNext::Call(request) => TerminalCheckView::Call(request@),
            TerminalCheckNext::Finish(r) => TerminalCheckView::Finish(r),
        }
    }
}

/// The next step of a boundary check: the invocation is resolved by its
/// id; the pinned path must come back; the properties are read at the
/// pinned path; where they still describe the pinned unit they say whether
/// it is terminal.
pub open spec fn spec_terminal_check_step(
    identity: PayloadScopeIdentity,
    pinned: PinnedInvocationUnit,
    control_group: Seq<char>,
    stage: TerminalCheckStage,
    answer: AnswerView,
) -> TerminalCheckView {
    match (stage, answer) {
        (TerminalCheckStage::Start, _) => TerminalCheckView::Call(
            RequestView::ResolveByInvocation { invocation_id: identity.invocation_id@ },
        ),
        (TerminalCheckStage::AwaitingResolution, AnswerView::Resolved(resolved)) => match spec_terminal_check_outcome(
            identity,
            pinned,
            control_group,
            resolved,
            Err(InvocationBackendError::Transport),
        ) {
            Err(e) => if resolved is Ok && resolved->Ok_0 == pinned.object_path@ {
                TerminalCheckView::Call(
                    RequestView::ReadProperties {
                        operation: InvocationOperation::ReadPropertiesAfterObserver,
                        invocation_id: identity.invocation_id@,
                        object_path: pinned.object_path@,
                        unit_name: identity.unit_name@,
                    },
                )
            } else {
                TerminalCheckView::Finish(Err(e))
            },
            Ok(b) => TerminalCheckView::Finish(Ok(b)),
        },
        (TerminalCheckStage::AwaitingProperties, AnswerView::Properties(read)) => TerminalCheckView::Finish(
            spec_terminal_check_outcome(
                identity,
                pinned,
                control_group,
                Ok(pinned.object_path@),
                read,
            ),
        ),
        _ => TerminalCheckView::Finish(Err(PayloadScopeError::InvalidIdentity)),
    }
}

pub fn terminal_check_step<'a>(
    identity: &'a PayloadScopeIdentity,
    pinned: &'a PinnedInvocationUnit,
    control_group: &'a str,
    stage: TerminalCheckStage,
    answer: &ProviderAnswer,
) -> (r: TerminalCheckNext<'a>)
    ensures
        r@ == spec_terminal_check_step(*identity, *pinned, control_group@, stage, answer@),
{
    match (stage, answer) {
        (TerminalCheckStage::Start, _) => TerminalCheckNext::Call(
            ProviderRequest::ResolveByInvocation { invocation_id: identity.invocation_id.as_str() },
        ),
        (TerminalCheckStage::AwaitingResolution, ProviderAnswer::Resolved(Err(e))) => TerminalCheckNext::Finish(
            Err(map_invocation_error(InvocationOperation::ResolveByInvocation, *e)),
        ),
        (TerminalCheckStage::AwaitingResolution, ProviderAnswer::Resolved(Ok(path))) => {
            match check_resolved_path(path.as_str(), pinned) {
                Err(e) => TerminalCheckNext::Finish(Err(e)),
                Ok(()) => TerminalCheckNext::Call(
                    ProviderRequest::ReadProperties {
                        operation: InvocationOperation::ReadPropertiesAfterObserver,
                        invocation_id: identity.invocation_id.as_str(),
                        object_path: pinned.object_path.as_str(),
                        unit_name: identity.unit_name.as_str(),
                    },
                ),
            }
        },
        (TerminalCheckStage::AwaitingProperties, ProviderAnswer::Properties(Err(e))) => TerminalCheckNext::Finish(
            Err(map_invocation_error(InvocationOperation::ReadPropertiesAfterObserver, *e)),
        ),
        (TerminalCheckStage::AwaitingProperties, ProviderAnswer::Properties(Ok(properties))) => TerminalCheckNext::Finish(
            terminal_verdict(identity, pinned, control_group, properties),
        ),
        _ => TerminalCheckNext::Finish(Err(PayloadScopeError::InvalidIdentity)),
    }
}

/// Whether the pinned unit has reached a terminal state, after resolving
/// the invocation to the pinned path and checking its identity. It makes
/// exactly the calls `terminal_check_step` asks for, with the arguments it
/// gives.
pub fn boundary_appears_terminal<P: InvocationBoundProvider>(
    provider: &P,
    identity: &PayloadScopeIdentity,
    pinned: &PinnedInvocationUnit,
    control_group: &str,
) -> (r: Result<bool, PayloadScopeError>)
    ensures
        exists|resolved: Result<Seq<char>, InvocationBackendError>, read: PropertiesAnswer|
            r == #[trigger] spec_terminal_check_outcome(
                *identity,
                *pinned,
                control_group@,
                resolved,
                read,
            ),
{
    let ghost none: PropertiesAnswer = Err(InvocationBackendError::Transport);
    let ghost cg = control_group@;
    let start = ProviderAnswer::Nothing;
    let resolution = match terminal_check_step(identity, pinned, control_group, TerminalCheckStage::Start, &start) {
        TerminalCheckNext::Call(ProviderRequest::ResolveByInvocation { invocation_id }) => {
            ProviderAnswer::Resolved(provider.resolve_by_invocation(invocation_id))
        },
        _ => {
            return Err(PayloadScopeError::InvalidIdentity);
        },
    };
    let ghost res: Result<Seq<char>, InvocationBackendError> = match resolution@ {
        AnswerView::Resolved(a) => a,
        _ => Err(InvocationBackendError::Transport),
    };
    let properties = match terminal_check_step(identity, pinned, control_group, TerminalCheckStage::AwaitingResolution, &resolution) {
        TerminalCheckNext::Call(ProviderRequest::ReadProperties { operation, invocation_id, object_path, unit_name }) => {
            ProviderAnswer::Properties(provider.read_properties(operation, invocation_id, object_path, unit_name))
        },
        TerminalCheckNext::Finish(r) => {
            assert(r == spec_terminal_check_outcome(*identity, *pinned, cg, res, none));
            return r;
        },
        _ => {
            return Err(PayloadScopeError::InvalidIdentity);
        },
    };
    let ghost read: PropertiesAnswer = match properties@ {
        AnswerView::Properties(a) => a,
        _ => none,
    };
    match terminal_check_step(identity, pinned, control_group, TerminalCheckStage::AwaitingProperties, &properties) {
        TerminalCheckNext::Finish(r) => {
            assert(r == spec_terminal_check_outcome(*identity, *pinned, cg, res, read));
            r
        },
        _ => Err(PayloadScopeError::InvalidIdentity),
    }
}

/// The verdict on properties read after a boundary event: an identity
/// change is an error, otherwise whether the unit is terminal.
pub fn terminal_verdict(
    identity: &PayloadScopeIdentity,
    pinned: &PinnedInvocationUnit,
    control_group: &str,
    properties: &InvocationUnitProperties,
) -> (r: Result<bool, PayloadScopeError>)
    ensures
        r == (if spec_transition_properties_valid(*identity, *pinned, control_group@, properties@) {
            Ok::<bool, PayloadScopeError>(
                spec_terminal_unit_state(
                    utf8_bytes(properties.active_state@),
                    utf8_bytes(properties.sub_state@),
                ),
            )
        } else {
            Err(PayloadScopeError::UnitReplaced)
        }),
{
    if let Err(e) = validate_terminal_transition_properties(identity, pinned, control_group, properties) {
        return Err(e);
    }
    Ok(terminal_unit_state(properties.active_state.as_str(), properties.sub_state.as_str()))
}

/// What a resolution during the empty proof gives: the path it named, or
/// no unit where the unit or its object is unknown; other failures are
/// errors.
pub open spec fn spec_proof_resolution(resolved: Result<Seq<char>, InvocationBackendError>) -> Result<
    Option<Seq<char>>,
    PayloadScopeError,
> {
    match resolved {
        Ok(path) => Ok(Some(path)),
        Err(InvocationBackendError::NoSuchUnit) => Ok(None),
        Err(InvocationBackendError::UnknownObject) => Ok(None),
        Err(e) => Err(spec_map_invocation_error(e)),
    }
}

/// A resolution state by the path it names.
pub open spec fn resolution_view(r: Result<ResolvedInvocationState, PayloadScopeError>) -> Result<
    Option<Seq<char>>,
    PayloadScopeError,
> {
    match r {
        Ok(ResolvedInvocationState::Present(path)) => Ok(Some(path@)),
        Ok(ResolvedInvocationState::Missing) => Ok(None),
        Err(e) => Err(e),
    }
}

/// Resolution for the empty proof: a unit that no longer exists is
/// `Missing`, not an error.
pub fn resolve_invocation_for_proof<P: InvocationBoundProvider>(
    provider: &P,
    invocation_id: &str,
) -> (r: Result<ResolvedInvocationState, PayloadScopeError>)
    ensures
        r matches Err(e) ==> e != PayloadScopeError::InvocationUnavailable,
        exists|resolved: Result<Seq<char>, InvocationBackendError>|
            resolution_view(r) == #[trigger] spec_proof_resolution(resolved),
{
    match provider.resolve_by_invocation(invocation_id) {
        Ok(path) => {
            assert(resolution_view(Ok(ResolvedInvocationState::Present(path)))
                == spec_proof_resolution(Ok(path@)));
            Ok(ResolvedInvocationState::Present(path))
        },
        Err(e) => {
            let r = resolution_failure(e);
            assert(resolution_view(r) == spec_proof_resolution(Err(e)));
            r
        },
    }
}

/// A failed resolution during the empty proof.
pub fn resolution_failure(error: InvocationBackendError) -> (r: Result<
    ResolvedInvocationState,
    PayloadScopeError,
>)
    ensures
        r == (match error {
            InvocationBackendError::NoSuchUnit => Ok::<
                ResolvedInvocationState,
                PayloadScopeError,
            >(ResolvedInvocationState::Missing),
            InvocationBackendError::UnknownObject => Ok(ResolvedInvocationState::Missing),
            _ => Err(spec_map_invocation_error(error)),
        }),
{
    match error {
        InvocationBackendError::NoSuchUnit => Ok(ResolvedInvocationState::Missing),
        InvocationBackendError::UnknownObject => Ok(ResolvedInvocationState::Missing),
        _ => Err(map_invocation_error(InvocationOperation::ResolveByInvocation, error)),
    }
}

/// The outcome of checking the unit at a resolved path, from the
/// properties read there: it must be the pinned unit, still the same unit,
/// and terminal.
pub open spec fn spec_terminal_unit_outcome(
    identity: PayloadScopeIdentity,
    pinned: PinnedInvocationUnit,
    control_group: Seq<char>,
    path: Seq<char>,
    read: PropertiesAnswer,
) -> Result<(), PayloadScopeError> {
    if path != pinned.object_path@ {
        Err(PayloadScopeError::UnitReplaced)
    } else {
        match read {
            Err(e) => Err(spec_map_invocation_error(e)),
            Ok(properties) => if !spec_transition_properties_valid(
                identity,
                pinned,
                control_group,
                properties,
            ) {
                Err(PayloadScopeError::UnitReplaced)
            } else if !spec_terminal_unit_state(
                utf8_bytes(properties.active_state),
                utf8_bytes(properties.sub_state),
            ) {
                Err(PayloadScopeError::UnitNotTerminal)
            } else {
                Ok(())
            },
        }
    }
}

/// The unit at `path` must be the pinned one, still the same unit, and terminal.
pub fn validate_terminal_unit<P: InvocationBoundProvider>(
    provider: &P,
    identity: &PayloadScopeIdentity,
    pinned: &PinnedInvocationUnit,
    control_group: &str,
    path: &str,
) -> (r: Result<(), PayloadScopeError>)
    ensures
        path@ != pinned.object_path@ ==> r == Err::<(), PayloadScopeError>(
            PayloadScopeError::UnitReplaced,
        ),
        exists|read: PropertiesAnswer|
            r == #[trigger] spec_terminal_unit_outcome(
                *identity,
                *pinned,
                control_group@,
                path@,
                read,
            ),
{
    let ghost none: PropertiesAnswer = Err(InvocationBackendError::Transport);
    if let Err(e) = check_resolved_path(path, pinned) {
        assert(Err::<(), PayloadScopeError>(e)
            == spec_terminal_unit_outcome(*identity, *pinned, control_group@, path@, none));
        return Err(e);
    }
    let properties = match provider.read_properties(
        InvocationOperation::ReadPropertiesDuringEmptyProof,
        identity.invocation_id.as_str(),
        path,
        identity.unit_name.as_str(),
    ) {
        Ok(p) => p,
        Err(e) => {
            assert(Err::<(), PayloadScopeError>(spec_map_invocation_error(e))
                == spec_terminal_unit_outcome(*identity, *pinned, control_group@, path@, Err(e)));
            return Err(
                map_invocation_error(InvocationOperation::ReadPropertiesDuringEmptyProof, e),
            );
        },
    };
    let r = match check_terminal_unit(identity, pinned, control_group, &properties) {
        Ok(()) => Ok(()),
        Err(e) => Err(e),
    };
    assert(r == spec_terminal_unit_outcome(
        *identity,
        *pinned,
        control_group@,
        path@,
        Ok(properties@),
    ));
    r
}

pub fn check_terminal_unit(
    identity: &PayloadScopeIdentity,
    pinned: &PinnedInvocationUnit,
    control_group: &str,
    properties: &InvocationUnitProperties,
) -> (r: Result<(), PayloadScopeError>)
    ensures
        r == (if !spec_transition_properties_valid(*identity, *pinned, control_group@, properties@) {
            Err::<(), PayloadScopeError>(PayloadScopeError::UnitReplaced)
        } else if !spec_terminal_unit_state(
            utf8_bytes(properties.active_state@),
            utf8_bytes(properties.sub_state@),
        ) {
            Err(PayloadScopeError::UnitNotTerminal)
        } else {
            Ok(())
        }),
{
    if let Err(e) = validate_terminal_transition_properties(identity, pinned, control_group, properties) {
        return Err(e);
    }
    if !terminal_unit_state(properties.active_state.as_str(), properties.sub_state.as_str()) {
        return Err(PayloadScopeError::UnitNotTerminal);
    }
    Ok(())
}

/// The two resolutions around the boundary read are coherent when both
/// name the same path or both find the unit missing.
pub open spec fn spec_coherent(first: ResolvedInvocationState, second: ResolvedInvocationState) -> bool {
    match (first, second) {
        (ResolvedInvocationState::Present(a), ResolvedInvocationState::Present(b)) => a@ == b@,
        (ResolvedInvocationState::Missing, ResolvedInvocationState::Missing) => true,
        _ => false,
    }
}

pub fn coherent_resolutions(first: &ResolvedInvocationState, second: &ResolvedInvocationState) -> (r:
    bool)
    ensures
        r == spec_coherent(*first, *second),
{
    match (first, second) {
        (ResolvedInvocationState::Present(a), ResolvedInvocationState::Present(b)) => text_equal(
            a.as_str(),
            b.as_str(),
        ),
        (ResolvedInvocationState::Missing, ResolvedInvocationState::Missing) => true,
        _ => false,
    }
}

/// A process whose cgroup could be read must not be inside the boundary.
pub fn check_outside_cgroup(control_group: &str, outside: &Result<String, PayloadScopeError>) -> (r:
    Result<(), PayloadScopeError>)
    ensures
        r is Ok <==> (match *outside {
            Ok(path) => path@ != control_group@ && !spec_is_ancestor(
                utf8_bytes(control_group@),
                utf8_bytes(path@),
            ),
            Err(_) => true,
        }),
        r matches Err(e) ==> e == PayloadScopeError::WorkerInsideBoundary,
{
    match outside {
        Ok(path) => {
            if text_equal(path.as_str(), control_group) || is_ancestor(control_group, path.as_str()) {
                Err(PayloadScopeError::WorkerInsideBoundary)
            } else {
                Ok(())
            }
        },
        Err(_) => Ok(()),
    }
}

/// What a resolution during the empty proof requires of the unit it names:
/// nothing where the unit is gone, a terminal pinned unit otherwise.
pub open spec fn spec_resolved_unit_check(
    identity: PayloadScopeIdentity,
    pinned: PinnedInvocationUnit,
    control_group: Seq<char>,
    resolution: Option<Seq<char>>,
    read: PropertiesAnswer,
) -> Result<(), PayloadScopeError> {
    match resolution {
        None => Ok(()),
        Some(path) => spec_terminal_unit_outcome(identity, pinned, control_group, path, read),
    }
}

/// A process whose cgroup could be read lies outside the boundary.
pub open spec fn spec_outside_cgroup_ok(control_group: Seq<char>, outside: Result<Seq<char>, PayloadScopeError>) -> bool {
    match outside {
        Ok(path) => path != control_group && !spec_is_ancestor(
            utf8_bytes(control_group),
            utf8_bytes(path),
        ),
        Err(_) => true,
    }
}

/// The outcome of the empty-boundary proof, from what was answered: the
/// first resolution and the read of the unit it names, the boundary
/// state, the cgroups of the worker and the launcher, and the second
/// resolution with its read. The cgroup may be present and empty, or gone;
/// a unit that still resolves must be the pinned, terminal unit, whose
/// control group the manager may have cleared; the two resolutions must
/// agree.
pub open spec fn spec_empty_proof_outcome(
    identity: PayloadScopeIdentity,
    pinned: PinnedInvocationUnit,
    control_group: Seq<char>,
    first: Result<Seq<char>, InvocationBackendError>,
    first_read: PropertiesAnswer,
    state: Result<CgroupEmptyState, InvocationBackendError>,
    worker: Result<Seq<char>, PayloadScopeError>,
    launcher: Result<Seq<char>, PayloadScopeError>,
    second: Result<Seq<char>, InvocationBackendError>,
    second_read: PropertiesAnswer,
) -> Result<(), PayloadScopeError> {
    if !spec_valid_payload_cgroup(
        utf8_bytes(control_group),
        identity.expected_uid,
        utf8_bytes(identity.unit_name@),
    ) {
        Err(PayloadScopeError::InvalidIdentity)
    } else {
        match spec_proof_resolution(first) {
            Err(e) => Err(e),
            Ok(f) => match spec_resolved_unit_check(identity, pinned, control_group, f, first_read) {
                Err(e) => Err(e),
                Ok(()) => match state {
                    Err(e) => Err(spec_map_invocation_error(e)),
                    Ok(_) => if !spec_outside_cgroup_ok(control_group, worker)
                        || !spec_outside_cgroup_ok(control_group, launcher) {
                        Err(PayloadScopeError::WorkerInsideBoundary)
                    } else {
                        match spec_proof_resolution(second) {
                            Err(e) => Err(e),
                            Ok(s) => if s != f {
                                Err(PayloadScopeError::UnitReplaced)
                            } else {
                                spec_resolved_unit_check(identity, pinned, control_group, s, second_read)
                            },
                        }
                    },
                },
            },
        }
    }
}

/// A proof's result without the proof.
pub open spec fn empty_proof_verdict(r: Result<BoundaryEmptyProof, PayloadScopeError>) -> Result<
    (),
    PayloadScopeError,
> {
    match r {
        Ok(_) => Ok(()),
        Err(e) => Err(e),
    }
}

/// How far the empty-boundary proof has come: the answer awaited.
#[derive(Debug, Clone, Copy, PartialEq, Eq, Structural)]
pub enum EmptyProofStage {
    Start,
    AwaitingFirstResolution,
    AwaitingFirstRead,
    AwaitingBoundaryState,
    AwaitingWorkerCgroup,
    AwaitingLauncherCgroup,
    AwaitingSecondResolution,
    AwaitingSecondRead,
}

/// What the empty-boundary proof does next.
#[derive(Debug, PartialEq, Eq)]
pub enum EmptyProofNext<'a> {
    /// Make this call to the system manager.
    Call(ProviderRequest<'a>),
    /// Read the cgroup of this process.
    ReadCgroupOf(u32),
    /// Stop: the boundary is proved empty, or this error.
    Finish(Result<(), PayloadScopeError>),
}

/// An empty-proof decision, by the view of the call it asks for.
pub enum EmptyProofView {
    Call(RequestView),
    ReadCgroupOf(u32),
    Finish(Result<(), PayloadScopeError>),
}

impl<'a> View for EmptyProofNext<'a> {
    type V = EmptyProofView;

    open spec fn view(&self) -> EmptyProofView {
        match *self {
            EmptyProofNext::Call(request) => EmptyProofView::Call(request@),
            EmptyProofNext::ReadCgroupOf(pid) => EmptyProofView::ReadCgroupOf(pid),
            EmptyProofNext::Finish(r) => EmptyProofView::Finish(r),
        }
    }
}

/// The next step of the empty-boundary proof. The cgroup must have the
/// payload's shape. The invocation is resolved by its id; a unit that still
/// resolves must be the pinned one, read at the pinned path and terminal.
/// The boundary state is read for the pinned path and the cgroup; then the
/// cgroups of the worker and of the launcher, which must lie outside; then
/// the invocation is resolved again, must agree with the first resolution,
/// and a unit that still resolves is read and checked once more. `first`
/// is what the first resolution gave.
pub open spec fn spec_empty_proof_step(
    identity: PayloadScopeIdentity,
    pinned: PinnedInvocationUnit,
    control_group: Seq<char>,
    worker_pid: u32,
    launcher_pid: u32,
    first: Option<Seq<char>>,
    stage: EmptyProofStage,
    answer: AnswerView,
) -> EmptyProofView {
    let resolve = RequestView::ResolveByInvocation { invocation_id: identity.invocation_id@ };
    let read = RequestView::ReadProperties {
        operation: InvocationOperation::ReadPropertiesDuringEmptyProof,
        invocation_id: identity.invocation_id@,
        object_path: pinned.object_path@,
        unit_name: identity.unit_name@,
    };
    let state = RequestView::ReadBoundaryState {
        invocation_id: identity.invocation_id@,
        object_path: pinned.object_path@,
        control_group,
    };
    match (stage, answer) {
        (EmptyProofStage::Start, _) => if !spec_valid_payload_cgroup(
            utf8_bytes(control_group),
            identity.expected_uid,
            utf8_bytes(identity.unit_name@),
        ) {
            EmptyProofView::Finish(Err(PayloadScopeError::InvalidIdentity))
        } else {
            EmptyProofView::Call(resolve)
        },
        (EmptyProofStage::AwaitingFirstResolution, AnswerView::Resolved(a)) => match spec_proof_resolution(a) {
            Err(e) => EmptyProofView::Finish(Err(e)),
            Ok(Some(path)) => if path != pinned.object_path@ {
                EmptyProofView::Finish(Err(PayloadScopeError::UnitReplaced))
            } else {
                EmptyProofView::Call(read)
            },
            Ok(None) => EmptyProofView::Call(state),
        },
        (EmptyProofStage::AwaitingFirstRead, AnswerView::Properties(a)) => match spec_terminal_unit_outcome(
            identity,
            pinned,
            control_group,
            pinned.object_path@,
            a,
        ) {
            Err(e) => EmptyProofView::Finish(Err(e)),
            Ok(()) => EmptyProofView::Call(state),
        },
        (EmptyProofStage::AwaitingBoundaryState, AnswerView::Boundary(b)) => match b {
            Err(e) => EmptyProofView::Finish(Err(spec_map_invocation_error(e))),
            Ok(_) => EmptyProofView::ReadCgroupOf(worker_pid),
        },
        (EmptyProofStage::AwaitingWorkerCgroup, AnswerView::Cgroup(c)) => if !spec_outside_cgroup_ok(
            control_group,
            c,
        ) {
            EmptyProofView::Finish(Err(PayloadScopeError::WorkerInsideBoundary))
        } else {
            EmptyProofView::ReadCgroupOf(launcher_pid)
        },
        (EmptyProofStage::AwaitingLauncherCgroup, AnswerView::Cgroup(c)) => if !spec_outside_cgroup_ok(
            control_group,
            c,
        ) {
            EmptyProofView::Finish(Err(PayloadScopeError::WorkerInsideBoundary))
        } else {
            EmptyProofView::Call(resolve)
        },
        (EmptyProofStage::AwaitingSecondResolution, AnswerView::Resolved(a)) => match spec_proof_resolution(a) {
            Err(e) => EmptyProofView::Finish(Err(e)),
            Ok(second) => if second != first {
                EmptyProofView::Finish(Err(PayloadScopeError::UnitReplaced))
            } else if second is Some {
                if second->Some_0 != pinned.object_path@ {
                    EmptyProofView::Finish(Err(PayloadScopeError::UnitReplaced))
                } else {
                    EmptyProofView::Call(read)
                }
            } else {
                EmptyProofView::Finish(Ok(()))
            },
        },
        (EmptyProofStage::AwaitingSecondRead, AnswerView::Properties(a)) => EmptyProofView::Finish(
            spec_terminal_unit_outcome(identity, pinned, control_group, pinned.object_path@, a),
        ),
        _ => EmptyProofView::Finish(Err(PayloadScopeError::InvalidIdentity)),
    }
}

pub fn empty_proof_step<'a>(
    identity: &'a PayloadScopeIdentity,
    pinned: &'a PinnedInvocationUnit,
    control_group: &'a str,
    worker_pid: u32,
    launcher_pid: u32,
    first: &ResolvedInvocationState,
    stage: EmptyProofStage,
    answer: &ProviderAnswer,
) -> (r: EmptyProofNext<'a>)
    ensures
        r@ == spec_empty_proof_step(
            *identity,
            *pinned,
            control_group@,
            worker_pid,
            launcher_pid,
            resolution_view(Ok::<ResolvedInvocationState, PayloadScopeError>(*first))->Ok_0,
            stage,
            answer@,
        ),
{
    let resolve = ProviderRequest::ResolveByInvocation { invocation_id: identity.invocation_id.as_str() };
    let read = ProviderRequest::ReadProperties {
        operation: InvocationOperation::ReadPropertiesDuringEmptyProof,
        invocation_id: identity.invocation_id.as_str(),
        object_path: pinned.object_path.as_str(),
        unit_name: identity.unit_name.as_str(),
    };
    let state = ProviderRequest::ReadBoundaryState {
        invocation_id: identity.invocation_id.as_str(),
        object_path: pinned.object_path.as_str(),
        control_group,
    };
    match (stage, answer) {
        (EmptyProofStage::Start, _) => if !valid_payload_cgroup(
            control_group,
            identity.expected_uid,
            identity.unit_name.as_str(),
        ) {
            EmptyProofNext::Finish(Err(PayloadScopeError::InvalidIdentity))
        } else {
            EmptyProofNext::Call(resolve)
        },
        (EmptyProofStage::AwaitingFirstResolution, ProviderAnswer::Resolved(Ok(path))) => {
            match check_resolved_path(path.as_str(), pinned) {
                Err(e) => EmptyProofNext::Finish(Err(e)),
                Ok(()) => EmptyProofNext::Call(read),
            }
        },
        (EmptyProofStage::AwaitingFirstResolution, ProviderAnswer::Resolved(Err(e))) => {
            match resolution_failure(*e) {
                Err(e) => EmptyProofNext::Finish(Err(e)),
                Ok(_) => EmptyProofNext::Call(state),
            }
        },
        (EmptyProofStage::AwaitingFirstRead, ProviderAnswer::Properties(Ok(properties))) => {
            match check_terminal_unit(identity, pinned, control_group, properties) {
                Err(e) => EmptyProofNext::Finish(Err(e)),
                Ok(()) => EmptyProofNext::Call(state),
            }
        },
        (EmptyProofStage::AwaitingFirstRead, ProviderAnswer::Properties(Err(e))) => EmptyProofNext::Finish(
            Err(map_invocation_error(InvocationOperation::ReadPropertiesDuringEmptyProof, *e)),
        ),
        (EmptyProofStage::AwaitingBoundaryState, ProviderAnswer::Boundary(Err(e))) => EmptyProofNext::Finish(
            Err(map_invocation_error(InvocationOperation::ReadBoundaryState, *e)),
        ),
        (EmptyProofStage::AwaitingBoundaryState, ProviderAnswer::Boundary(Ok(_))) => EmptyProofNext::ReadCgroupOf(
            worker_pid,
        ),
        (EmptyProofStage::AwaitingWorkerCgroup, ProviderAnswer::Cgroup(c)) => {
            match check_outside_cgroup(control_group, c) {
                Err(e) => EmptyProofNext::Finish(Err(e)),
                Ok(()) => EmptyProofNext::ReadCgroupOf(launcher_pid),
            }
        },
        (EmptyProofStage::AwaitingLauncherCgroup, ProviderAnswer::Cgroup(c)) => {
            match check_outside_cgroup(control_group, c) {
                Err(e) => EmptyProofNext::Finish(Err(e)),
                Ok(()) => EmptyProofNext::Call(resolve),
            }
        },
        (EmptyProofStage::AwaitingSecondResolution, ProviderAnswer::Resolved(a)) => {
            let second = match a {
                Ok(path) => Ok(ResolvedInvocationState::Present(path.clone())),
                Err(e) => resolution_failure(*e),
            };
            match second {
                Err(e) => EmptyProofNext::Finish(Err(e)),
                Ok(second) => if !coherent_resolutions(first, &second) {
                    EmptyProofNext::Finish(Err(PayloadScopeError::UnitReplaced))
                } else {
                    match second {
                        ResolvedInvocationState::Present(path) => {
                            match check_resolved_path(path.as_str(), pinned) {
                                Err(e) => EmptyProofNext::Finish(Err(e)),
                                Ok(()) => EmptyProofNext::Call(read),
                            }
                        },
                        ResolvedInvocationState::Missing => EmptyProofNext::Finish(Ok(())),
                    }
                },
            }
        },
        (EmptyProofStage::AwaitingSecondRead, ProviderAnswer::Properties(Ok(properties))) => {
            match check_terminal_unit(identity, pinned, control_group, properties) {
                Err(e) => EmptyProofNext::Finish(Err(e)),
                Ok(()) => EmptyProofNext::Finish(Ok(())),
            }
        },
        (EmptyProofStage::AwaitingSecondRead, ProviderAnswer::Properties(Err(e))) => EmptyProofNext::Finish(
            Err(map_invocation_error(InvocationOperation::ReadPropertiesDuringEmptyProof, *e)),
        ),
        _ => EmptyProofNext::Finish(Err(PayloadScopeError::InvalidIdentity)),
    }
}

/// Proves the payload boundary empty after its leader ended: the unit is
/// terminal (or gone), the cgroup is empty or gone, neither the worker nor
/// the launcher is inside, and a second resolution agrees with the first.
/// It makes exactly the calls `empty_proof_step` asks for, with the
/// arguments it gives.
pub fn prove_empty_boundary<P: InvocationBoundProvider, C: ProcessCgroupReader>(
    provider: &P,
    cgroups: &C,
    identity: &PayloadScopeIdentity,
    pinned: &PinnedInvocationUnit,
    control_group: &str,
    worker_pid: u32,
    launcher_pid: u32,
    leader_exit: LeaderExit,
) -> (r: Result<BoundaryEmptyProof, PayloadScopeError>)
    ensures
        !spec_valid_payload_cgroup(
            utf8_bytes(control_group@),
            identity.expected_uid,
            utf8_bytes(identity.unit_name@),
        ) ==> r is Err && r->Err_0 == PayloadScopeError::InvalidIdentity,
        r matches Ok(proof) ==> proof@.unit_name == identity.unit_name@
            && proof@.invocation_id == identity.invocation_id@ && proof@.control_group
            == control_group@ && proof@.leader_exit == leader_exit,
        exists|
            first: Result<Seq<char>, InvocationBackendError>,
            first_read: PropertiesAnswer,
            state: Result<CgroupEmptyState, InvocationBackendError>,
            worker: Result<Seq<char>, PayloadScopeError>,
            launcher: Result<Seq<char>, PayloadScopeError>,
            second: Result<Seq<char>, InvocationBackendError>,
            second_read: PropertiesAnswer,
        |
            empty_proof_verdict(r) == #[trigger] spec_empty_proof_outcome(
                *identity,
                *pinned,
                control_group@,
                first,
                first_read,
                state,
                worker,
                launcher,
                second,
                second_read,
            ),
{
    let ghost cg = control_group@;
    let ghost none: PropertiesAnswer = Err(InvocationBackendError::Transport);
    let ghost no_path: Result<Seq<char>, InvocationBackendError> = Err(InvocationBackendError::Transport);
    let ghost no_text: Result<Seq<char>, PayloadScopeError> = Err(PayloadScopeError::InvalidMembership);
    let ghost no_state: Result<CgroupEmptyState, InvocationBackendError> = Err(InvocationBackendError::Transport);
    let nothing = ProviderAnswer::Nothing;
    let missing = ResolvedInvocationState::Missing;
    let first_resolution = match empty_proof_step(identity, pinned, control_group, worker_pid, launcher_pid, &missing, EmptyProofStage::Start, &nothing) {
        EmptyProofNext::Call(request) => perform_query(provider, request),
        EmptyProofNext::Finish(r) => {
            assert(empty_proof_verdict(Err(PayloadScopeError::InvalidIdentity)) == spec_empty_proof_outcome(
                *identity, *pinned, cg, no_path, none, no_state, no_text, no_text, no_path, none));
            return Err(PayloadScopeError::InvalidIdentity);
        },
        _ => {
            return Err(PayloadScopeError::InvalidIdentity);
        },
    };
    let ghost a1: Result<Seq<char>, InvocationBackendError> = match first_resolution@ {
        AnswerView::Resolved(a) => a,
        _ => no_path,
    };
    let mut r1_holder = ProviderAnswer::Nothing;
    let state_request = match empty_proof_step(identity, pinned, control_group, worker_pid, launcher_pid, &missing, EmptyProofStage::AwaitingFirstResolution, &first_resolution) {
        EmptyProofNext::Finish(r) => {
            let e = match r {
                Ok(()) => PayloadScopeError::InvalidIdentity,
                Err(e) => e,
            };
            assert(empty_proof_verdict(Err(e)) == spec_empty_proof_outcome(
                *identity, *pinned, cg, a1, none, no_state, no_text, no_text, no_path, none));
            return Err(e);
        },
        EmptyProofNext::Call(ProviderRequest::ReadProperties { operation, invocation_id, object_path, unit_name }) => {
            r1_holder = ProviderAnswer::Properties(provider.read_properties(operation, invocation_id, object_path, unit_name));
            match empty_proof_step(identity, pinned, control_group, worker_pid, launcher_pid, &missing, EmptyProofStage::AwaitingFirstRead, &r1_holder) {
                EmptyProofNext::Call(request) => request,
                EmptyProofNext::Finish(r) => {
                    let e = match r {
                        Ok(()) => PayloadScopeError::InvalidIdentity,
                        Err(e) => e,
                    };
                    proof {
                        let r1 = match r1_holder@ { AnswerView::Properties(a) => a, _ => none };
                        assert(empty_proof_verdict(Err(e)) == spec_empty_proof_outcome(
                            *identity, *pinned, cg, a1, r1, no_state, no_text, no_text, no_path, none));
                    }
                    return Err(e);
                },
                _ => {
                    return Err(PayloadScopeError::InvalidIdentity);
                },
            }
        },
        EmptyProofNext::Call(request) => request,
        _ => {
            return Err(PayloadScopeError::InvalidIdentity);
        },
    };
    let ghost r1: PropertiesAnswer = match r1_holder@ {
        AnswerView::Properties(a) => a,
        _ => none,
    };
    let first = match first_resolution {
        ProviderAnswer::Resolved(Ok(path)) => ResolvedInvocationState::Present(path),
        _ => ResolvedInvocationState::Missing,
    };
    assert(spec_valid_payload_cgroup(
        utf8_bytes(control_group@),
        identity.expected_uid,
        utf8_bytes(identity.unit_name@),
    ));
    let state = perform_query(provider, state_request);
    let ghost st: Result<CgroupEmptyState, InvocationBackendError> = match state@ {
        AnswerView::Boundary(b) => b,
        _ => no_state,
    };
    let worker = match empty_proof_step(identity, pinned, control_group, worker_pid, launcher_pid, &first, EmptyProofStage::AwaitingBoundaryState, &state) {
        EmptyProofNext::ReadCgroupOf(pid) => ProviderAnswer::Cgroup(cgroups.pid_cgroup(pid)),
        EmptyProofNext::Finish(r) => {
            let e = match r {
                Ok(()) => PayloadScopeError::InvalidIdentity,
                Err(e) => e,
            };
            assert(empty_proof_verdict(Err(e)) == spec_empty_proof_outcome(
                *identity, *pinned, cg, a1, r1, st, no_text, no_text, no_path, none));
            return Err(e);
        },
        _ => {
            return Err(PayloadScopeError::InvalidIdentity);
        },
    };
    let ghost w: Result<Seq<char>, PayloadScopeError> = match worker@ {
        AnswerView::Cgroup(c) => c,
        _ => no_text,
    };
    let launcher = match empty_proof_step(identity, pinned, control_group, worker_pid, launcher_pid, &first, EmptyProofStage::AwaitingWorkerCgroup, &worker) {
        EmptyProofNext::ReadCgroupOf(pid) => ProviderAnswer::Cgroup(cgroups.pid_cgroup(pid)),
        EmptyProofNext::Finish(r) => {
            let e = match r {
                Ok(()) => PayloadScopeError::InvalidIdentity,
                Err(e) => e,
            };
            assert(empty_proof_verdict(Err(e)) == spec_empty_proof_outcome(
                *identity, *pinned, cg, a1, r1, st, w, no_text, no_path, none));
            return Err(e);
        },
        _ => {
            return Err(PayloadScopeError::InvalidIdentity);
        },
    };
    let ghost l: Result<Seq<char>, PayloadScopeError> = match launcher@ {
        AnswerView::Cgroup(c) => c,
        _ => no_text,
    };
    let second_resolution = match empty_proof_step(identity, pinned, control_group, worker_pid, launcher_pid, &first, EmptyProofStage::AwaitingLauncherCgroup, &launcher) {
        EmptyProofNext::Call(request) => perform_query(provider, request),
        EmptyProofNext::Finish(r) => {
            let e = match r {
                Ok(()) => PayloadScopeError::InvalidIdentity,
                Err(e) => e,
            };
            assert(empty_proof_verdict(Err(e)) == spec_empty_proof_outcome(
                *identity, *pinned, cg, a1, r1, st, w, l, no_path, none));
            return Err(e);
        },
        _ => {
            return Err(PayloadScopeError::InvalidIdentity);
        },
    };
    let ghost a2: Result<Seq<char>, InvocationBackendError> = match second_resolution@ {
        AnswerView::Resolved(a) => a,
        _ => no_path,
    };
    let second_read = match empty_proof_step(identity, pinned, control_group, worker_pid, launcher_pid, &first, EmptyProofStage::AwaitingSecondResolution, &second_resolution) {
        EmptyProofNext::Call(request) => perform_query(provider, request),
        EmptyProofNext::Finish(r) => {
            assert(r == spec_empty_proof_outcome(*identity, *pinned, cg, a1, r1, st, w, l, a2, none));
            return match r {
                Ok(()) => Ok(BoundaryEmptyProof::new(identity, control_group, leader_exit)),
                Err(e) => Err(e),
            };
        },
        _ => {
            return Err(PayloadScopeError::InvalidIdentity);
        },
    };
    let ghost r2: PropertiesAnswer = match second_read@ {
        AnswerView::Properties(a) => a,
        _ => none,
    };
    match empty_proof_step(identity, pinned, control_group, worker_pid, launcher_pid, &first, EmptyProofStage::AwaitingSecondRead, &second_read) {
        EmptyProofNext::Finish(r) => {
            assert(r == spec_empty_proof_outcome(*identity, *pinned, cg, a1, r1, st, w, l, a2, r2));
            match r {
                Ok(()) => Ok(BoundaryEmptyProof::new(identity, control_group, leader_exit)),
                Err(e) => Err(e),
            }
        },
        _ => Err(PayloadScopeError::InvalidIdentity),
    }
}

/// The outcome of the pre-commit disappearance proof, from what the
/// provider answered: two resolutions, each followed by a property read.
/// Any failed call is a failed cleanup; the first resolution must name the
/// pinned path, the second the same path, and both reads must describe the
/// same, still valid, terminal unit.
pub open spec fn spec_disappearance_outcome(
    identity: PayloadScopeIdentity,
    pinned: PinnedInvocationUnit,
    control_group: Seq<char>,
    first_path: Result<Seq<char>, InvocationBackendError>,
    first: PropertiesAnswer,
    second_path: Result<Seq<char>, InvocationBackendError>,
    second: PropertiesAnswer,
) -> Result<(), PayloadScopeError> {
    if !pinned.reference_held {
        Err(PayloadScopeError::CleanupFailed)
    } else {
        match first_path {
            Err(_) => Err(PayloadScopeError::CleanupFailed),
            Ok(p1) => if p1 != pinned.object_path@ {
                Err(PayloadScopeError::UnitReplaced)
            } else {
                match first {
                    Err(_) => Err(PayloadScopeError::CleanupFailed),
                    Ok(v1) => if !spec_disappeared_properties_valid(
                        identity,
                        pinned,
                        control_group,
                        v1,
                    ) {
                        Err(PayloadScopeError::UnitReplaced)
                    } else {
                        match second_path {
                            Err(_) => Err(PayloadScopeError::CleanupFailed),
                            Ok(p2) => if p2 != p1 {
                                Err(PayloadScopeError::UnitReplaced)
                            } else {
                                match second {
                                    Err(_) => Err(PayloadScopeError::CleanupFailed),
                                    Ok(v2) => if !spec_disappeared_properties_valid(
                                        identity,
                                        pinned,
                                        control_group,
                                        v2,
                                    ) || v1 != v2 {
                                        Err(PayloadScopeError::UnitReplaced)
                                    } else {
                                        Ok(())
                                    },
                                }
                            },
                        }
                    },
                }
            },
        }
    }
}

/// How far the pre-commit disappearance proof has come: the call whose
/// answer is awaited.
#[derive(Debug, Clone, Copy, PartialEq, Eq, Structural)]
pub enum DisappearanceStage {
    Start,
    AwaitingFirstResolution,
    AwaitingFirstRead,
    AwaitingSecondResolution,
    AwaitingSecondRead,
}

/// The next step of the pre-commit disappearance proof. A released pin is
/// a failed cleanup. Otherwise the invocation is resolved by its id and
/// must name the pinned path; the properties at the pinned path must
/// describe the disappeared unit; the invocation is resolved again and must
/// name the first path; the properties are read again and must be the same,
/// still valid. Any failed call is a failed cleanup. `first_path` and
/// `first` are what the first resolution and read gave.
pub open spec fn spec_disappearance_step(
    identity: PayloadScopeIdentity,
    pinned: PinnedInvocationUnit,
    control_group: Seq<char>,
    first_path: Seq<char>,
    first: UnitPropertiesView,
    stage: DisappearanceStage,
    answer: AnswerView,
) -> NextView {
    let read = RequestView::ReadProperties {
        operation: InvocationOperation::ReadPropertiesDuringCleanup,
        invocation_id: identity.invocation_id@,
        object_path: pinned.object_path@,
        unit_name: identity.unit_name@,
    };
    let resolve = RequestView::ResolveByInvocation { invocation_id: identity.invocation_id@ };
    match (stage, answer) {
        (DisappearanceStage::Start, _) => if !pinned.reference_held {
            NextView::Finish(Err(PayloadScopeError::CleanupFailed))
        } else {
            NextView::Call(resolve)
        },
        (DisappearanceStage::AwaitingFirstResolution, AnswerView::Resolved(Ok(path))) => if path
            != pinned.object_path@ {
            NextView::Finish(Err(PayloadScopeError::UnitReplaced))
        } else {
            NextView::Call(read)
        },
        (DisappearanceStage::AwaitingFirstRead, AnswerView::Properties(Ok(v1))) => if !spec_disappeared_properties_valid(
            identity,
            pinned,
            control_group,
            v1,
        ) {
            NextView::Finish(Err(PayloadScopeError::UnitReplaced))
        } else {
            NextView::Call(resolve)
        },
        (DisappearanceStage::AwaitingSecondResolution, AnswerView::Resolved(Ok(path))) => if path
            != first_path {
            NextView::Finish(Err(PayloadScopeError::UnitReplaced))
        } else {
            NextView::Call(read)
        },
        (DisappearanceStage::AwaitingSecondRead, AnswerView::Properties(Ok(v2))) => if !spec_disappeared_properties_valid(
            identity,
            pinned,
            control_group,
            v2,
        ) || first != v2 {
            NextView::Finish(Err(PayloadScopeError::UnitReplaced))
        } else {
            NextView::Finish(Ok(()))
        },
        _ => NextView::Finish(Err(PayloadScopeError::CleanupFailed)),
    }
}

pub fn disappearance_step<'a>(
    identity: &'a PayloadScopeIdentity,
    pinned: &'a PinnedInvocationUnit,
    control_group: &'a str,
    first_path: &str,
    first: &InvocationUnitProperties,
    stage: DisappearanceStage,
    answer: &ProviderAnswer,
) -> (r: ProviderNext<'a>)
    ensures
        r@ == spec_disappearance_step(
            *identity,
            *pinned,
            control_group@,
            first_path@,
            first@,
            stage,
            answer@,
        ),
{
    let read = ProviderRequest::ReadProperties {
        operation: InvocationOperation::ReadPropertiesDuringCleanup,
        invocation_id: identity.invocation_id.as_str(),
        object_path: pinned.object_path.as_str(),
        unit_name: identity.unit_name.as_str(),
    };
    let resolve = ProviderRequest::ResolveByInvocation { invocation_id: identity.invocation_id.as_str() };
    match (stage, answer) {
        (DisappearanceStage::Start, _) => if !pinned.reference_held {
            ProviderNext::Finish(Err(PayloadScopeError::CleanupFailed))
        } else {
            ProviderNext::Call(resolve)
        },
        (DisappearanceStage::AwaitingFirstResolution, ProviderAnswer::Resolved(Ok(path))) => {
            match check_resolved_path(path.as_str(), pinned) {
                Err(e) => ProviderNext::Finish(Err(e)),
                Ok(()) => ProviderNext::Call(read),
            }
        },
        (DisappearanceStage::AwaitingFirstRead, ProviderAnswer::Properties(Ok(v1))) => {
            match validate_disappeared_boundary_properties(identity, pinned, control_group, v1) {
                Err(e) => ProviderNext::Finish(Err(e)),
                Ok(()) => ProviderNext::Call(resolve),
            }
        },
        (DisappearanceStage::AwaitingSecondResolution, ProviderAnswer::Resolved(Ok(path))) => {
            if !text_equal(path.as_str(), first_path) {
                ProviderNext::Finish(Err(PayloadScopeError::UnitReplaced))
            } else {
                ProviderNext::Call(read)
            }
        },
        (DisappearanceStage::AwaitingSecondRead, ProviderAnswer::Properties(Ok(v2))) => {
            match validate_disappeared_boundary_properties(identity, pinned, control_group, v2) {
                Err(e) => ProviderNext::Finish(Err(e)),
                Ok(()) => if !first.same_as(v2) {
                    ProviderNext::Finish(Err(PayloadScopeError::UnitReplaced))
                } else {
                    ProviderNext::Finish(Ok(()))
                },
            }
        },
        _ => ProviderNext::Finish(Err(PayloadScopeError::CleanupFailed)),
    }
}

/// What a read's answer gives, where it gave properties; other answers are
/// not used.
fn properties_of(answer: ProviderAnswer) -> (r: Option<InvocationUnitProperties>)
    ensures
        match answer@ {
            AnswerView::Properties(Ok(p)) => r matches Some(q) && q@ == p,
            _ => r is None,
        },
{
    match answer {
        ProviderAnswer::Properties(Ok(p)) => Some(p),
        _ => None,
    }
}

/// What a resolution's answer gives, where it gave a path.
fn path_of(answer: ProviderAnswer) -> (r: Option<String>)
    ensures
        match answer@ {
            AnswerView::Resolved(Ok(p)) => r matches Some(q) && q@ == p,
            _ => r is None,
        },
{
    match answer {
        ProviderAnswer::Resolved(Ok(p)) => Some(p),
        _ => None,
    }
}

/// Sends the only signal a graceful termination sends: `SIGTERM`, to the
/// pinned path of the invocation.
fn perform_kill<P: InvocationBoundProvider>(
    provider: &P,
    identity: &PayloadScopeIdentity,
    pinned: &PinnedInvocationUnit,
    request: ProviderRequest,
) -> (r: Result<(), InvocationBackendError>)
    requires
        request@ == (RequestView::KillPinnedUnit {
            invocation_id: identity.invocation_id@,
            object_path: pinned.object_path@,
            signal: LINUX_SIGTERM,
        }),
{
    match request {
        ProviderRequest::KillPinnedUnit { invocation_id, object_path, signal } => provider.kill_pinned_unit(
            invocation_id,
            object_path,
            signal,
        ),
        _ => Err(InvocationBackendError::Transport),
    }
}

/// A path of the shape a payload scope's cgroup has, for some user and unit.
pub open spec fn spec_payload_cgroup_path(control_group: Seq<char>) -> bool {
    exists|uid: u32, unit_name: Seq<char>|
        #[trigger] spec_valid_payload_cgroup(utf8_bytes(control_group), uid, utf8_bytes(unit_name))
}

/// Performs a resolution, a property read or a boundary-state read that a
/// step asked for; the boundary state is only ever read for a path of a
/// payload scope's cgroup.
fn perform_query<P: InvocationBoundProvider>(provider: &P, request: ProviderRequest) -> (r: ProviderAnswer)
    requires
        request matches ProviderRequest::ReadBoundaryState { control_group, .. }
            ==> spec_payload_cgroup_path(control_group@),
    ensures
        request matches ProviderRequest::ResolveByInvocation { .. } ==> r@ is Resolved,
        request matches ProviderRequest::ReadProperties { .. } ==> r@ is Properties,
        request matches ProviderRequest::ReadBoundaryState { .. } ==> r@ is Boundary,
{
    match request {
        ProviderRequest::ResolveByInvocation { invocation_id } => ProviderAnswer::Resolved(
            provider.resolve_by_invocation(invocation_id),
        ),
        ProviderRequest::ReadProperties { operation, invocation_id, object_path, unit_name } =>
            ProviderAnswer::Properties(
            provider.read_properties(operation, invocation_id, object_path, unit_name),
        ),
        ProviderRequest::ReadBoundaryState { invocation_id, object_path, control_group } =>
            ProviderAnswer::Boundary(
            provider.read_boundary_state(invocation_id, object_path, control_group),
        ),
        _ => ProviderAnswer::Nothing,
    }
}

/// Proves, before commit, that a unit whose cgroup disappeared is still the
/// pinned invocation and terminal, by two resolutions that name the pinned
/// path and two identical, valid property reads. It makes exactly the
/// calls `disappearance_step` asks for, with the arguments it gives.
pub fn prove_precommit_disappearance<P: InvocationBoundProvider>(
    provider: &P,
    identity: &PayloadScopeIdentity,
    pinned: &PinnedInvocationUnit,
    control_group: &str,
) -> (r: Result<(), PayloadScopeError>)
    ensures
        !pinned.reference_held ==> r == Err::<(), PayloadScopeError>(
            PayloadScopeError::CleanupFailed,
        ),
        r is Ok ==> exists|seen: UnitPropertiesView|
            spec_disappeared_properties_valid(*identity, *pinned, control_group@, seen),
        r matches Err(e) ==> e == PayloadScopeError::CleanupFailed || e
            == PayloadScopeError::UnitReplaced,
        exists|
            first_path: Result<Seq<char>, InvocationBackendError>,
            first: PropertiesAnswer,
            second_path: Result<Seq<char>, InvocationBackendError>,
            second: PropertiesAnswer,
        |
            r == #[trigger] spec_disappearance_outcome(
                *identity,
                *pinned,
                control_group@,
                first_path,
                first,
                second_path,
                second,
            ),
{
    let ghost none: PropertiesAnswer = Err(InvocationBackendError::Transport);
    let ghost no_path: Result<Seq<char>, InvocationBackendError> = Err(InvocationBackendError::Transport);
    let ghost cg = control_group@;
    let placeholder = InvocationUnitProperties {
        object_path: String::new(),
        id: String::new(),
        invocation_id: String::new(),
        control_group: String::new(),
        slice: String::new(),
        transient: false,
        active_state: String::new(),
        sub_state: String::new(),
    };
    let start = ProviderAnswer::Nothing;
    let first_resolution = match disappearance_step(identity, pinned, control_group, "", &placeholder, DisappearanceStage::Start, &start) {
        ProviderNext::Call(request) => perform_query(provider, request),
        ProviderNext::Finish(r) => {
            assert(r == spec_disappearance_outcome(*identity, *pinned, cg, no_path, none, no_path, none));
            return r;
        },
    };
    let ghost p1: Result<Seq<char>, InvocationBackendError> = match first_resolution@ {
        AnswerView::Resolved(a) => a,
        _ => no_path,
    };
    let first_read = match disappearance_step(identity, pinned, control_group, "", &placeholder, DisappearanceStage::AwaitingFirstResolution, &first_resolution) {
        ProviderNext::Call(request) => perform_query(provider, request),
        ProviderNext::Finish(r) => {
            assert(r == spec_disappearance_outcome(*identity, *pinned, cg, p1, none, no_path, none));
            return r;
        },
    };
    let ghost a1: PropertiesAnswer = match first_read@ {
        AnswerView::Properties(a) => a,
        _ => none,
    };
    let second_resolution = match disappearance_step(identity, pinned, control_group, "", &placeholder, DisappearanceStage::AwaitingFirstRead, &first_read) {
        ProviderNext::Call(request) => perform_query(provider, request),
        ProviderNext::Finish(r) => {
            assert(r == spec_disappearance_outcome(*identity, *pinned, cg, p1, a1, no_path, none));
            return r;
        },
    };
    let ghost p2: Result<Seq<char>, InvocationBackendError> = match second_resolution@ {
        AnswerView::Resolved(a) => a,
        _ => no_path,
    };
    let first_path = match path_of(first_resolution) {
        Some(p) => p,
        None => {
            return Err(PayloadScopeError::CleanupFailed);
        },
    };
    let first = match properties_of(first_read) {
        Some(p) => p,
        None => {
            return Err(PayloadScopeError::CleanupFailed);
        },
    };
    let second_read = match disappearance_step(identity, pinned, control_group, first_path.as_str(), &first, DisappearanceStage::AwaitingSecondResolution, &second_resolution) {
        ProviderNext::Call(request) => perform_query(provider, request),
        ProviderNext::Finish(r) => {
            assert(r == spec_disappearance_outcome(*identity, *pinned, cg, p1, a1, p2, none));
            return r;
        },
    };
    let ghost a2: PropertiesAnswer = match second_read@ {
        AnswerView::Properties(a) => a,
        _ => none,
    };
    match disappearance_step(identity, pinned, control_group, first_path.as_str(), &first, DisappearanceStage::AwaitingSecondRead, &second_read) {
        ProviderNext::Finish(r) => {
            assert(r == spec_disappearance_outcome(*identity, *pinned, cg, p1, a1, p2, a2));
            r
        },
        _ => Err(PayloadScopeError::CleanupFailed),
    }
}

/// The call that releases a pin: none where the pin is already released,
/// otherwise an unref of the pinned path of the invocation.
pub fn release_request<'a>(identity: &'a PayloadScopeIdentity, pinned: &'a PinnedInvocationUnit) -> (r:
    Option<ProviderRequest<'a>>)
    ensures
        !pinned.reference_held ==> r is None,
        pinned.reference_held ==> (r matches Some(request) && request@ == (
        RequestView::UnrefPinnedUnit {
            invocation_id: identity.invocation_id@,
            object_path: pinned.object_path@,
        })),
{
    if !pinned.reference_held {
        None
    } else {
        Some(
            ProviderRequest::UnrefPinnedUnit {
                invocation_id: identity.invocation_id.as_str(),
                object_path: pinned.object_path.as_str(),
            },
        )
    }
}

/// Drops the reference on the pinned unit with the call `release_request`
/// asks for. A pin already released is left alone; where the release
/// fails the pin stays held.
pub fn release_pin<P: InvocationBoundProvider>(
    provider: &P,
    identity: &PayloadScopeIdentity,
    pinned: &mut PinnedInvocationUnit,
) -> (r: Result<(), PayloadScopeError>)
    ensures
        final(pinned).object_path == old(pinned).object_path,
        !old(pinned).reference_held ==> r is Ok && *final(pinned) == *old(pinned),
        r is Ok ==> !final(pinned).reference_held,
        r is Err ==> *final(pinned) == *old(pinned) && r->Err_0 == PayloadScopeError::UnrefFailed,
{
    let answer = match release_request(identity, pinned) {
        None => {
            return Ok(());
        },
        Some(ProviderRequest::UnrefPinnedUnit { invocation_id, object_path }) => {
            provider.unref_pinned_unit(invocation_id, object_path)
        },
        Some(_) => {
            return Err(PayloadScopeError::UnrefFailed);
        },
    };
    match answer {
        Ok(()) => {
            pinned.reference_held = false;
            Ok(())
        },
        Err(_) => Err(PayloadScopeError::UnrefFailed),
    }
}

/// A kill is asked for only after the invocation resolved to the pinned
/// path and properties read there made the unit eligible, and then only
/// with `SIGTERM`, the invocation's id and the pinned path; no later stage
/// asks for another.
pub proof fn lemma_graceful_kill_is_bound(
    identity: PayloadScopeIdentity,
    pinned: PinnedInvocationUnit,
    control_group: Seq<char>,
    stage: GracefulStage,
    answer: AnswerView,
)
    ensures
        spec_graceful_step(identity, pinned, control_group, stage, answer) matches NextView::Call(
            RequestView::KillPinnedUnit { invocation_id, object_path, signal },
        ) ==> stage == GracefulStage::AwaitingEligibility && invocation_id == identity.invocation_id@
            && object_path == pinned.object_path@ && signal == LINUX_SIGTERM && pinned.reference_held
            && (answer matches AnswerView::Properties(Ok(properties)) && spec_kill_eligible(
            identity,
            pinned,
            control_group,
            properties,
        )),
{
}

/// On a boundary wake-up, properties read at the pinned path that still
/// describe the pinned unit give its terminal state, `inactive`/`dead` or
/// `failed`/`failed`, and nothing else: in particular a unit still `active`
/// is never reported terminal.
pub proof fn lemma_boundary_check_reports_the_read_state(
    identity: PayloadScopeIdentity,
    pinned: PinnedInvocationUnit,
    control_group: Seq<char>,
    properties: UnitPropertiesView,
)
    ensures
        spec_terminal_check_step(
            identity,
            pinned,
            control_group,
            TerminalCheckStage::AwaitingProperties,
            AnswerView::Properties(Ok(properties)),
        ) matches TerminalCheckView::Finish(Ok(terminal)) ==> (terminal <==> (utf8_bytes(
            properties.active_state,
        ) == lit_inactive() && utf8_bytes(properties.sub_state) == lit_dead()) || (utf8_bytes(
            properties.active_state,
        ) == lit_failed() && utf8_bytes(properties.sub_state) == lit_failed())),
        utf8_bytes(properties.active_state) == lit_active() ==> spec_terminal_check_step(
            identity,
            pinned,
            control_group,
            TerminalCheckStage::AwaitingProperties,
            AnswerView::Properties(Ok(properties)),
        ) != TerminalCheckView::Finish(Ok(true)),
{
    assert(lit_active().len() != lit_inactive().len());
    assert(lit_active()[0] != lit_failed()[0]);
}

/// The empty proof reads the boundary state of exactly the invocation, the
/// pinned path and the proof's own cgroup; a boundary reported populated
/// ends it with `BoundaryNotEmpty`; and it succeeds only at its last
/// step, after the second resolution.
pub proof fn lemma_empty_proof_reads_its_own_boundary(
    identity: PayloadScopeIdentity,
    pinned: PinnedInvocationUnit,
    control_group: Seq<char>,
    worker_pid: u32,
    launcher_pid: u32,
    first: Option<Seq<char>>,
    stage: EmptyProofStage,
    answer: AnswerView,
)
    ensures
        spec_empty_proof_step(
            identity,
            pinned,
            control_group,
            worker_pid,
            launcher_pid,
            first,
            stage,
            answer,
        ) matches EmptyProofView::Call(
            RequestView::ReadBoundaryState { invocation_id, object_path, control_group: read },
        ) ==> invocation_id == identity.invocation_id@ && object_path == pinned.object_path@ && read
            == control_group,
        spec_valid_payload_cgroup(
            utf8_bytes(control_group),
            identity.expected_uid,
            utf8_bytes(identity.unit_name@),
        ) ==> spec_empty_proof_step(
            identity,
            pinned,
            control_group,
            worker_pid,
            launcher_pid,
            first,
            EmptyProofStage::AwaitingBoundaryState,
            AnswerView::Boundary(Err(InvocationBackendError::BoundaryNotEmpty)),
        ) == EmptyProofView::Finish(Err(PayloadScopeError::BoundaryNotEmpty)),
        spec_empty_proof_step(
            identity,
            pinned,
            control_group,
            worker_pid,
            launcher_pid,
            first,
            stage,
            answer,
        ) == EmptyProofView::Finish(Ok(())) ==> stage == EmptyProofStage::AwaitingSecondResolution
            || stage == EmptyProofStage::AwaitingSecondRead,
{
}

} // verus!
