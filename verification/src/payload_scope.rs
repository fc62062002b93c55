//! The payload scope: the transient systemd scope that holds the graphical
//! session, the identity it is pinned by, and the rules that decide whether
//! what systemd reports still describes that very unit.
use vstd::prelude::*;

use crate::logind::LogindSessionId;
use crate::names::{
    lit_active, lit_active_vec, lit_dead, lit_dead_vec, lit_failed, lit_failed_vec, lit_inactive,
    lit_inactive_vec, lit_payload_prefix, lit_payload_prefix_vec, lit_running, lit_running_vec,
    lit_scope_suffix, lit_scope_suffix_vec, lit_slice_dir, lit_slice_dir_vec, lit_slice_suffix,
    lit_slice_suffix_vec, lit_user_dash, lit_user_dash_vec, lit_user_slice_root,
    lit_user_slice_root_vec,
};
use crate::text::{
    append_bytes, bytes_equal, decimal, ends_with, has_prefix, has_suffix, lemma_utf8_bytes_injective,
    push_decimal, starts_with, str_bytes, string_bytes, utf8_bytes,
};

verus! {

#[derive(Debug, Clone, Copy, PartialEq, Eq, Structural)]
pub enum PayloadScopeError {
    BusUnavailable,
    StartFailed,
    TimedOut,
    JobFailed,
    InvalidIdentity,
    CgroupMismatch,
    InvalidMembership,
    WorkerInsideBoundary,
    CleanupFailed,
    ObserverFailed,
    UnitReplaced,
    BoundaryNotEmpty,
    UnitNotTerminal,
    UnrefFailed,
    InvocationUnavailable,
    TransportFailure,
    ServiceOwnerChanged,
}

/// The invocation-bound operations, each named for the logs by its stage.
#[derive(Debug, Clone, Copy, PartialEq, Eq, Structural)]
pub enum InvocationOperation {
    ResolveByInvocation,
    RefPinnedUnit,
    ReadPropertiesAfterRef,
    KillPinnedUnit,
    ReadPropertiesAfterKill,
    CreateBoundaryObserver,
    ReadPropertiesAfterObserver,
    ReadBoundaryState,
    ReadPropertiesDuringEmptyProof,
    ReadPropertiesDuringCleanup,
    UnrefPinnedUnit,
}

pub open spec fn spec_stage(op: InvocationOperation) -> &'static str {
    match op {
        InvocationOperation::ResolveByInvocation => "resolve",
        InvocationOperation::RefPinnedUnit => "ref",
        InvocationOperation::ReadPropertiesAfterRef => "post_ref",
        InvocationOperation::KillPinnedUnit => "kill",
        InvocationOperation::ReadPropertiesAfterKill => "post_kill",
        InvocationOperation::CreateBoundaryObserver => "observe",
        InvocationOperation::ReadPropertiesAfterObserver => "observe",
        InvocationOperation::ReadBoundaryState => "proof",
        InvocationOperation::ReadPropertiesDuringEmptyProof => "proof",
        InvocationOperation::ReadPropertiesDuringCleanup => "cleanup",
        InvocationOperation::UnrefPinnedUnit => "unref",
    }
}

impl InvocationOperation {
    /// The stage under which the operation is logged.
    pub fn stage(self) -> (r: &'static str)
        ensures
            r == spec_stage(self),
    {
        match self {
            InvocationOperation::ResolveByInvocation => "resolve",
            InvocationOperation::RefPinnedUnit => "ref",
            InvocationOperation::ReadPropertiesAfterRef => "post_ref",
            InvocationOperation::KillPinnedUnit => "kill",
            InvocationOperation::ReadPropertiesAfterKill => "post_kill",
            InvocationOperation::CreateBoundaryObserver => "observe",
            InvocationOperation::ReadPropertiesAfterObserver => "observe",
            InvocationOperation::ReadBoundaryState => "proof",
            InvocationOperation::ReadPropertiesDuringEmptyProof => "proof",
            InvocationOperation::ReadPropertiesDuringCleanup => "cleanup",
            InvocationOperation::UnrefPinnedUnit => "unref",
        }
    }
}

/// The failures of the invocation-bound transport, as the worker tells them apart.
#[derive(Debug, Clone, Copy, PartialEq, Eq, Structural)]
pub enum InvocationBackendError {
    NoSuchUnit,
    UnknownObject,
    BusDisconnected,
    ServiceOwnerChanged,
    Transport,
    BoundaryNotEmpty,
    CgroupAbsent,
    CgroupIo,
}

/// The unit properties read back through a pinned object path.
#[derive(Debug, Clone, PartialEq, Eq)]
pub struct InvocationUnitProperties {
    pub object_path: String,
    pub id: String,
    pub invocation_id: String,
    pub control_group: String,
    pub slice: String,
    pub transient: bool,
    pub active_state: String,
    pub sub_state: String,
}

/// The text of a set of unit properties.
pub struct UnitPropertiesView {
    pub object_path: Seq<char>,
    pub id: Seq<char>,
    pub invocation_id: Seq<char>,
    pub control_group: Seq<char>,
    pub slice: Seq<char>,
    pub transient: bool,
    pub active_state: Seq<char>,
    pub sub_state: Seq<char>,
}

impl View for InvocationUnitProperties {
    type V = UnitPropertiesView;

    open spec fn view(&self) -> UnitPropertiesView {
        UnitPropertiesView {
            object_path: self.object_path@,
            id: self.id@,
            invocation_id: self.invocation_id@,
            control_group: self.control_group@,
            slice: self.slice@,
            transient: self.transient,
            active_state: self.active_state@,
            sub_state: self.sub_state@,
        }
    }
}

impl InvocationUnitProperties {
    /// Equality of every property.
    pub fn same_as(&self, other: &InvocationUnitProperties) -> (r: bool)
        ensures
            r == (self@ == other@),
    {
        self.object_path == other.object_path && self.id == other.id && self.invocation_id
            == other.invocation_id && self.control_group == other.control_group && self.slice
            == other.slice && self.transient == other.transient && self.active_state
            == other.active_state && self.sub_state == other.sub_state
    }
}

/// The identity a payload scope is created and later addressed by.
#[derive(Debug, Clone)]
pub struct PayloadScopeIdentity {
    pub unit_name: String,
    pub invocation_id: String,
    pub expected_uid: u32,
    pub logind_session_id: LogindSessionId,
}

/// The unit object the worker holds a reference on.
#[derive(Debug, Clone, PartialEq, Eq)]
pub struct PinnedInvocationUnit {
    pub object_path: String,
    pub reference_held: bool,
}

/// What remains of the payload cgroup where it holds no process.
#[derive(Debug, Clone, Copy, PartialEq, Eq, Structural)]
pub enum CgroupEmptyState {
    Absent,
    PresentEmpty,
}

/// What resolving the expected invocation gave during an empty proof.
#[derive(Debug, Clone, PartialEq, Eq)]
pub enum ResolvedInvocationState {
    Present(String),
    Missing,
}

pub open spec fn spec_map_invocation_error(error: InvocationBackendError) -> PayloadScopeError {
    match error {
        InvocationBackendError::NoSuchUnit => PayloadScopeError::InvocationUnavailable,
        InvocationBackendError::UnknownObject => PayloadScopeError::InvocationUnavailable,
        InvocationBackendError::BusDisconnected => PayloadScopeError::BusUnavailable,
        InvocationBackendError::ServiceOwnerChanged => PayloadScopeError::ServiceOwnerChanged,
        InvocationBackendError::Transport => PayloadScopeError::TransportFailure,
        InvocationBackendError::BoundaryNotEmpty => PayloadScopeError::BoundaryNotEmpty,
        InvocationBackendError::CgroupAbsent => PayloadScopeError::InvalidIdentity,
        InvocationBackendError::CgroupIo => PayloadScopeError::InvalidMembership,
    }
}

/// The error a failed invocation-bound operation is reported as.
pub fn map_invocation_error(operation: InvocationOperation, error: InvocationBackendError) -> (r:
    PayloadScopeError)
    ensures
        r == spec_map_invocation_error(error),
{
    match error {
        InvocationBackendError::NoSuchUnit => PayloadScopeError::InvocationUnavailable,
        InvocationBackendError::UnknownObject => PayloadScopeError::InvocationUnavailable,
        InvocationBackendError::BusDisconnected => PayloadScopeError::BusUnavailable,
        InvocationBackendError::ServiceOwnerChanged => PayloadScopeError::ServiceOwnerChanged,
        InvocationBackendError::Transport => PayloadScopeError::TransportFailure,
        InvocationBackendError::BoundaryNotEmpty => PayloadScopeError::BoundaryNotEmpty,
        InvocationBackendError::CgroupAbsent => PayloadScopeError::InvalidIdentity,
        InvocationBackendError::CgroupIo => PayloadScopeError::InvalidMembership,
    }
}

/// `inactive`/`dead` and `failed`/`failed` are the only terminal unit states.
pub open spec fn spec_terminal_unit_state(active: Seq<u8>, sub: Seq<u8>) -> bool {
    (active == lit_inactive() && sub == lit_dead()) || (active == lit_failed() && sub
        == lit_failed())
}

pub fn terminal_unit_state(active: &str, sub: &str) -> (r: bool)
    ensures
        r == spec_terminal_unit_state(utf8_bytes(active@), utf8_bytes(sub@)),
{
    let a = str_bytes(active);
    let s = str_bytes(sub);
    let inactive = lit_inactive_vec();
    let dead = lit_dead_vec();
    let failed = lit_failed_vec();
    (bytes_equal(a, inactive.as_slice()) && bytes_equal(s, dead.as_slice())) || (bytes_equal(
        a,
        failed.as_slice(),
    ) && bytes_equal(s, failed.as_slice()))
}

/// A running unit: `active`/`running`.
pub open spec fn spec_running_unit_state(active: Seq<u8>, sub: Seq<u8>) -> bool {
    active == lit_active() && sub == lit_running()
}

pub fn running_unit_state(active: &str, sub: &str) -> (r: bool)
    ensures
        r == spec_running_unit_state(utf8_bytes(active@), utf8_bytes(sub@)),
{
    let a = str_bytes(active);
    let s = str_bytes(sub);
    let act = lit_active_vec();
    let run = lit_running_vec();
    bytes_equal(a, act.as_slice()) && bytes_equal(s, run.as_slice())
}

/// The slice of a user's units: `user-<uid>.slice`.
pub open spec fn spec_user_slice(uid: u32) -> Seq<u8> {
    lit_user_dash() + decimal(uid as nat) + lit_slice_suffix()
}

pub fn user_slice_bytes(uid: u32) -> (r: Vec<u8>)
    ensures
        r@ == spec_user_slice(uid),
{
    let mut r = lit_user_dash_vec();
    push_decimal(&mut r, uid);
    let suffix = lit_slice_suffix_vec();
    append_bytes(&mut r, suffix.as_slice());
    r
}

/// A slice name is valid when it is the slice of a non-root user.
pub open spec fn spec_valid_slice_name(value: Seq<u8>, uid: u32) -> bool {
    value == spec_user_slice(uid) && uid != 0
}

pub fn valid_slice_name(value: &str, uid: u32) -> (r: bool)
    ensures
        r == spec_valid_slice_name(utf8_bytes(value@), uid),
{
    let expected = user_slice_bytes(uid);
    bytes_equal(str_bytes(value), expected.as_slice()) && uid != 0
}

/// The only cgroup a payload scope may have:
/// `/user.slice/user-<uid>.slice/<unit>`, where the unit is named
/// `niralis-payload-*.scope`.
pub open spec fn spec_valid_payload_cgroup(cgroup: Seq<u8>, uid: u32, unit: Seq<u8>) -> bool {
    &&& cgroup == lit_user_slice_root() + decimal(uid as nat) + lit_slice_dir() + unit
    &&& starts_with(unit, lit_payload_prefix())
    &&& ends_with(unit, lit_scope_suffix())
}

pub fn valid_payload_cgroup(cgroup: &str, uid: u32, unit: &str) -> (r: bool)
    ensures
        r == spec_valid_payload_cgroup(utf8_bytes(cgroup@), uid, utf8_bytes(unit@)),
{
    let unit_bytes = str_bytes(unit);
    let mut expected = lit_user_slice_root_vec();
    push_decimal(&mut expected, uid);
    let dir = lit_slice_dir_vec();
    append_bytes(&mut expected, dir.as_slice());
    append_bytes(&mut expected, unit_bytes);
    let prefix = lit_payload_prefix_vec();
    let suffix = lit_scope_suffix_vec();
    bytes_equal(str_bytes(cgroup), expected.as_slice()) && has_prefix(unit_bytes, prefix.as_slice())
        && has_suffix(unit_bytes, suffix.as_slice())
}

/// `candidate` is a proper ancestor directory of `path`.
pub open spec fn spec_is_ancestor(candidate: Seq<u8>, path: Seq<u8>) -> bool {
    &&& starts_with(path, candidate)
    &&& path.len() > candidate.len()
    &&& path[candidate.len() as int] == 47u8
}

pub fn is_ancestor(candidate: &str, path: &str) -> (r: bool)
    ensures
        r == spec_is_ancestor(utf8_bytes(candidate@), utf8_bytes(path@)),
{
    let c = str_bytes(candidate);
    let p = str_bytes(path);
    has_prefix(p, c) && p.len() > c.len() && p[c.len()] == 47u8
}

/// The rule pinned unit properties must meet: the same object and
/// invocation, the expected unit name, cgroup, slice and transience, and a
/// cgroup of the only shape a payload scope may have.
pub open spec fn spec_pinned_properties_valid(
    identity: PayloadScopeIdentity,
    pinned: PinnedInvocationUnit,
    control_group: Seq<char>,
    properties: UnitPropertiesView,
) -> bool {
    &&& pinned.reference_held
    &&& properties.object_path == pinned.object_path@
    &&& properties.invocation_id == identity.invocation_id@
    &&& properties.id == identity.unit_name@
    &&& properties.control_group == control_group
    &&& utf8_bytes(properties.slice) == spec_user_slice(identity.expected_uid)
    &&& properties.transient
    &&& spec_valid_payload_cgroup(
        utf8_bytes(control_group),
        identity.expected_uid,
        utf8_bytes(identity.unit_name@),
    )
}

/// Checks that the properties read back still describe the pinned unit.
pub fn validate_pinned_properties(
    identity: &PayloadScopeIdentity,
    pinned: &PinnedInvocationUnit,
    control_group: &str,
    properties: &InvocationUnitProperties,
) -> (r: Result<(), PayloadScopeError>)
    ensures
        r is Ok <==> spec_pinned_properties_valid(*identity, *pinned, control_group@, properties@),
        r matches Err(e) ==> e == PayloadScopeError::UnitReplaced,
{
    if !pinned.reference_held || properties.object_path != pinned.object_path {
        return Err(PayloadScopeError::UnitReplaced);
    }
    if properties.invocation_id != identity.invocation_id {
        return Err(PayloadScopeError::UnitReplaced);
    }
    let slice = user_slice_bytes(identity.expected_uid);
    let same_cgroup = bytes_equal(string_bytes(&properties.control_group), str_bytes(control_group));
    proof {
        lemma_utf8_bytes_injective(properties.control_group@, control_group@);
    }
    if properties.id != identity.unit_name || !same_cgroup || !bytes_equal(
        string_bytes(&properties.slice),
        slice.as_slice(),
    ) || !properties.transient || !valid_payload_cgroup(
        control_group,
        identity.expected_uid,
        identity.unit_name.as_str(),
    ) {
        return Err(PayloadScopeError::UnitReplaced);
    }
    Ok(())
}

/// The rule for a unit whose cgroup has disappeared before commit: the same
/// object, invocation, name, slice and transience, a control group that is
/// either cleared or unchanged, and a terminal state.
pub open spec fn spec_disappeared_properties_valid(
    identity: PayloadScopeIdentity,
    pinned: PinnedInvocationUnit,
    control_group: Seq<char>,
    properties: UnitPropertiesView,
) -> bool {
    &&& properties.object_path == pinned.object_path@
    &&& properties.invocation_id == identity.invocation_id@
    &&& properties.id == identity.unit_name@
    &&& utf8_bytes(properties.slice) == spec_user_slice(identity.expected_uid)
    &&& properties.transient
    &&& (properties.control_group.len() == 0 || properties.control_group == control_group)
    &&& spec_terminal_unit_state(
        utf8_bytes(properties.active_state),
        utf8_bytes(properties.sub_state),
    )
}

pub fn validate_disappeared_boundary_properties(
    identity: &PayloadScopeIdentity,
    pinned: &PinnedInvocationUnit,
    control_group: &str,
    properties: &InvocationUnitProperties,
) -> (r: Result<(), PayloadScopeError>)
    ensures
        r is Ok <==> spec_disappeared_properties_valid(
            *identity,
            *pinned,
            control_group@,
            properties@,
        ),
        r matches Err(e) ==> e == PayloadScopeError::UnitReplaced,
{
    let slice = user_slice_bytes(identity.expected_uid);
    let cg = string_bytes(&properties.control_group);
    let cleared = cg.len() == 0;
    let same_cgroup = bytes_equal(cg, str_bytes(control_group));
    proof {
        lemma_utf8_bytes_injective(properties.control_group@, control_group@);
        if cleared {
            assert(properties.control_group@.len() == 0) by {
                if properties.control_group@.len() > 0 {
                    lemma_utf8_bytes_injective(properties.control_group@, Seq::<char>::empty());
                    assert(utf8_bytes(Seq::<char>::empty()) =~= Seq::<u8>::empty());
                }
            }
        } else {
            assert(properties.control_group@.len() != 0) by {
                if properties.control_group@.len() == 0 {
                    assert(properties.control_group@ =~= Seq::<char>::empty());
                    assert(utf8_bytes(Seq::<char>::empty()) =~= Seq::<u8>::empty());
                }
            }
        }
    }
    if properties.object_path != pinned.object_path || properties.invocation_id
        != identity.invocation_id || properties.id != identity.unit_name || !bytes_equal(
        string_bytes(&properties.slice),
        slice.as_slice(),
    ) || !properties.transient || (!cleared && !same_cgroup) || !terminal_unit_state(
        properties.active_state.as_str(),
        properties.sub_state.as_str(),
    ) {
        return Err(PayloadScopeError::UnitReplaced);
    }
    Ok(())
}

/// The rule for properties read once a unit may have ended: those of a
/// pinned unit, except that a unit already terminal may have had its
/// control group cleared by the manager.
pub open spec fn spec_transition_properties_valid(
    identity: PayloadScopeIdentity,
    pinned: PinnedInvocationUnit,
    control_group: Seq<char>,
    properties: UnitPropertiesView,
) -> bool {
    &&& pinned.reference_held
    &&& properties.object_path == pinned.object_path@
    &&& properties.invocation_id == identity.invocation_id@
    &&& properties.id == identity.unit_name@
    &&& (properties.control_group == control_group || (properties.control_group.len() == 0
        && spec_terminal_unit_state(
        utf8_bytes(properties.active_state),
        utf8_bytes(properties.sub_state),
    )))
    &&& utf8_bytes(properties.slice) == spec_user_slice(identity.expected_uid)
    &&& properties.transient
    &&& spec_valid_payload_cgroup(
        utf8_bytes(control_group),
        identity.expected_uid,
        utf8_bytes(identity.unit_name@),
    )
}

/// Checks properties read once the unit may have ended.
pub fn validate_terminal_transition_properties(
    identity: &PayloadScopeIdentity,
    pinned: &PinnedInvocationUnit,
    control_group: &str,
    properties: &InvocationUnitProperties,
) -> (r: Result<(), PayloadScopeError>)
    ensures
        r is Ok <==> spec_transition_properties_valid(
            *identity,
            *pinned,
            control_group@,
            properties@,
        ),
        r matches Err(e) ==> e == PayloadScopeError::UnitReplaced,
{
    let slice = user_slice_bytes(identity.expected_uid);
    let cg = string_bytes(&properties.control_group);
    let cleared = cg.len() == 0;
    let same_cgroup = bytes_equal(cg, str_bytes(control_group));
    proof {
        lemma_utf8_bytes_injective(properties.control_group@, control_group@);
        if cleared {
            assert(properties.control_group@.len() == 0) by {
                if properties.control_group@.len() > 0 {
                    lemma_utf8_bytes_injective(properties.control_group@, Seq::<char>::empty());
                    assert(utf8_bytes(Seq::<char>::empty()) =~= Seq::<u8>::empty());
                }
            }
        } else {
            assert(properties.control_group@.len() != 0) by {
                if properties.control_group@.len() == 0 {
                    assert(properties.control_group@ =~= Seq::<char>::empty());
                    assert(utf8_bytes(Seq::<char>::empty()) =~= Seq::<u8>::empty());
                }
            }
        }
    }
    let cgroup_ok = same_cgroup || (cleared && terminal_unit_state(
        properties.active_state.as_str(),
        properties.sub_state.as_str(),
    ));
    if !pinned.reference_held || properties.object_path != pinned.object_path
        || properties.invocation_id != identity.invocation_id || properties.id
        != identity.unit_name || !cgroup_ok || !bytes_equal(
        string_bytes(&properties.slice),
        slice.as_slice(),
    ) || !properties.transient || !valid_payload_cgroup(
        control_group,
        identity.expected_uid,
        identity.unit_name.as_str(),
    ) {
        return Err(PayloadScopeError::UnitReplaced);
    }
    Ok(())
}

} // verus!
