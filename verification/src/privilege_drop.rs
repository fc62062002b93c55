//! The credential drop of the session child: supplementary groups, then the
//! primary group, then the user, and a check of what the kernel reports
//! afterwards.
use vstd::prelude::*;

use crate::identity::{
    lemma_sorted_same_set_equal, sorted_supplementary, strictly_sorted, supplementary_set,
    ResolvedUnixCredentials,
};

verus! {

/// The credentials the kernel reported after a successful drop.
#[derive(Debug, Clone, PartialEq, Eq)]
pub struct AppliedCredentials {
    pub uid: u32,
    pub gid: u32,
    pub supplementary_gids: Vec<u32>,
}

/// The credentials a drop is asked to reach.
#[derive(Debug, Clone, PartialEq, Eq)]
pub struct PrivilegeDropTarget {
    pub uid: u32,
    pub gid: u32,
    pub supplementary_gids: Vec<u32>,
}

impl PrivilegeDropTarget {
    /// The target that the resolved credentials of a user ask for.
    pub fn from_credentials(credentials: &ResolvedUnixCredentials) -> (r: Self)
        ensures
            r.uid == credentials.identity.uid,
            r.gid == credentials.identity.gid,
            r.supplementary_gids@ == credentials.supplementary_gids@,
    {
        let mut groups: Vec<u32> = Vec::new();
        let mut i: usize = 0;
        while i < credentials.supplementary_gids.len()
            invariant
                i <= credentials.supplementary_gids@.len(),
                groups@ == credentials.supplementary_gids@.subrange(0, i as int),
            decreases credentials.supplementary_gids.len() - i,
        {
            groups.push(credentials.supplementary_gids[i]);
            i += 1;
        }
        assert(credentials.supplementary_gids@.subrange(
            0,
            credentials.supplementary_gids@.len() as int,
        ) =~= credentials.supplementary_gids@);
        PrivilegeDropTarget {
            uid: credentials.identity.uid,
            gid: credentials.identity.gid,
            supplementary_gids: groups,
        }
    }
}

#[derive(Debug, Clone, Copy, PartialEq, Eq, Structural)]
pub enum PrivilegeDropError {
    InvalidUid,
    InvalidGid,
    InvalidSupplementaryGid,
    InvalidSupplementaryGroups,
    RootUidDisallowed,
    SetGroupsFailed,
    SetGidFailed,
    SetUidFailed,
    VerificationFailed,
    CredentialMismatch,
}

/// Drops the privileges of the calling process.
///
/// Meant only for a dedicated, single-threaded session child before it runs
/// user-controlled code; never in the privileged supervisor or the daemon.
pub trait PrivilegeDropper: Send + Sync {
    fn drop_privileges(&self, target: &PrivilegeDropTarget) -> Result<
        AppliedCredentials,
        PrivilegeDropError,
    >;
}

/// What a credential system call reports when it fails.
#[derive(Debug, Clone, Copy, PartialEq, Eq, Structural)]
pub enum SyscallError {
    Failed,
    InvalidCount,
    ObservedGroupCountExceeded,
}

/// The credentials of the calling process as the kernel reports them.
#[derive(Debug, Clone, PartialEq, Eq)]
pub struct ObservedCredentials {
    pub real_uid: u32,
    pub effective_uid: u32,
    pub saved_uid: u32,
    pub real_gid: u32,
    pub effective_gid: u32,
    pub saved_gid: u32,
    pub supplementary_gids: Vec<u32>,
}

/// The credential system calls a drop is made of.
pub trait CredentialSyscalls {
    fn set_supplementary_groups(&self, groups: &[u32]) -> Result<(), SyscallError>;

    fn set_primary_gid(&self, gid: u32) -> Result<(), SyscallError>;

    fn set_uid(&self, uid: u32) -> Result<(), SyscallError>;

    /// Reads the credentials, refusing more than `max_groups` supplementary
    /// groups.
    fn inspect_credentials(&self, max_groups: usize) -> Result<ObservedCredentials, SyscallError>;
}

/// Most supplementary groups a target may carry.
pub const HARD_MAX_SUPPLEMENTARY_GROUPS: usize = 65536;

/// Most groups read back after a drop: the supplementary groups and the
/// primary group.
pub const HARD_MAX_OBSERVED_GROUPS: usize = 65537;

/// The number of groups read back, capped at `HARD_MAX_OBSERVED_GROUPS`.
pub fn bounded_max_observed_groups(expected: usize) -> (r: usize)
    ensures
        r == (if expected < HARD_MAX_OBSERVED_GROUPS {
            expected
        } else {
            HARD_MAX_OBSERVED_GROUPS
        }),
{
    if expected < HARD_MAX_OBSERVED_GROUPS {
        expected
    } else {
        HARD_MAX_OBSERVED_GROUPS
    }
}

/// The group count `getgroups` reported, refused where it is negative or
/// more than `max_groups`.
pub fn observed_group_count(raw: i32, max_groups: usize) -> (r: Result<usize, SyscallError>)
    ensures
        r == (if raw < 0 {
            Err::<usize, SyscallError>(SyscallError::InvalidCount)
        } else if raw > max_groups {
            Err(SyscallError::ObservedGroupCountExceeded)
        } else {
            Ok(raw as usize)
        }),
{
    if raw < 0 {
        return Err(SyscallError::InvalidCount);
    }
    let count = raw as u32 as usize;
    if count > max_groups {
        return Err(SyscallError::ObservedGroupCountExceeded);
    }
    Ok(count)
}

/// The group count a second `getgroups` filled in, refused where it is
/// negative or more than the buffer holds.
pub fn filled_group_count(raw: i32, capacity: usize) -> (r: Result<usize, SyscallError>)
    ensures
        r == (if raw < 0 || raw > capacity {
            Err::<usize, SyscallError>(SyscallError::InvalidCount)
        } else {
            Ok(raw as usize)
        }),
{
    if raw < 0 {
        return Err(SyscallError::InvalidCount);
    }
    let count = raw as u32 as usize;
    if count > capacity {
        return Err(SyscallError::InvalidCount);
    }
    Ok(count)
}

/// A target's supplementary groups are strictly ascending and leave out its
/// primary group.
pub open spec fn valid_supplementary_groups(target: PrivilegeDropTarget) -> bool {
    strictly_sorted(target.supplementary_gids@) && !target.supplementary_gids@.contains(target.gid)
}

/// Whether `groups` holds `gid`.
fn holds_gid(groups: &[u32], gid: u32) -> (r: bool)
    ensures
        r == groups@.contains(gid),
{
    let mut i: usize = 0;
    while i < groups.len()
        invariant
            i <= groups@.len(),
            forall|j: int| 0 <= j < i ==> groups@[j] != gid,
        decreases groups.len() - i,
    {
        if groups[i] == gid {
            return true;
        }
        i += 1;
    }
    false
}

/// Whether `groups` is strictly ascending.
fn ascending(groups: &[u32]) -> (r: bool)
    ensures
        r == strictly_sorted(groups@),
{
    let mut i: usize = 1;
    if groups.len() < 2 {
        return true;
    }
    while i < groups.len()
        invariant
            1 <= i <= groups@.len(),
            forall|a: int, b: int| 0 <= a < b < i ==> groups@[a] < groups@[b],
        decreases groups.len() - i,
    {
        if groups[i - 1] >= groups[i] {
            return false;
        }
        i += 1;
    }
    true
}

/// Whether two group lists are the same.
fn same_groups(a: &[u32], b: &[u32]) -> (r: bool)
    ensures
        r == (a@ == b@),
{
    if a.len() != b.len() {
        return false;
    }
    let mut i: usize = 0;
    while i < a.len()
        invariant
            a@.len() == b@.len(),
            i <= a@.len(),
            forall|j: int| 0 <= j < i ==> a@[j] == b@[j],
        decreases a.len() - i,
    {
        if a[i] != b[i] {
            return false;
        }
        i += 1;
    }
    assert(a@ =~= b@);
    true
}

/// Checks a target before anything is changed, and gives the number of
/// groups that may be read back afterwards.
pub fn validate_drop_target(target: &PrivilegeDropTarget) -> (r: Result<usize, PrivilegeDropError>)
    ensures
        r == (if target.uid == 0 {
            Err::<usize, PrivilegeDropError>(PrivilegeDropError::RootUidDisallowed)
        } else if !valid_supplementary_groups(*target) {
            Err(PrivilegeDropError::InvalidSupplementaryGroups)
        } else if target.supplementary_gids@.len() + 1 > usize::MAX {
            Err(PrivilegeDropError::VerificationFailed)
        } else {
            Ok((target.supplementary_gids@.len() + 1) as usize)
        }),
{
    if target.uid == 0 {
        return Err(PrivilegeDropError::RootUidDisallowed);
    }
    let groups = target.supplementary_gids.as_slice();
    if !ascending(groups) || holds_gid(groups, target.gid) {
        return Err(PrivilegeDropError::InvalidSupplementaryGroups);
    }
    match groups.len().checked_add(1) {
        Some(n) => Ok(n),
        None => Err(PrivilegeDropError::VerificationFailed),
    }
}

/// What a failed credential inspection means for the drop: a group list
/// longer than allowed is a mismatch, anything else a failed check.
pub fn inspection_error(error: SyscallError) -> (r: PrivilegeDropError)
    ensures
        r == (if error == SyscallError::ObservedGroupCountExceeded {
            PrivilegeDropError::CredentialMismatch
        } else {
            PrivilegeDropError::VerificationFailed
        }),
{
    match error {
        SyscallError::ObservedGroupCountExceeded => PrivilegeDropError::CredentialMismatch,
        _ => PrivilegeDropError::VerificationFailed,
    }
}

/// The observed credentials match a target: every user and group ID is the
/// target's, and the distinct observed groups other than the primary group
/// are exactly the target's supplementary groups.
pub open spec fn observed_matches(observed: ObservedCredentials, target: PrivilegeDropTarget) -> bool {
    &&& observed.real_uid == target.uid
    &&& observed.effective_uid == target.uid
    &&& observed.saved_uid == target.uid
    &&& observed.real_gid == target.gid
    &&& observed.effective_gid == target.gid
    &&& observed.saved_gid == target.gid
    &&& supplementary_set(observed.supplementary_gids@, target.gid)
        == target.supplementary_gids@.to_set()
}

/// The applied credentials are those of the target.
pub open spec fn applied_is_target(applied: AppliedCredentials, target: PrivilegeDropTarget) -> bool {
    &&& applied.uid == target.uid
    &&& applied.gid == target.gid
    &&& applied.supplementary_gids@ == target.supplementary_gids@
}

/// Compares what the kernel reported after a drop with the target.
pub fn verify_observed_credentials(
    observed: ObservedCredentials,
    target: &PrivilegeDropTarget,
) -> (r: Result<AppliedCredentials, PrivilegeDropError>)
    requires
        valid_supplementary_groups(*target),
    ensures
        r is Ok <==> observed_matches(observed, *target),
        r matches Ok(applied) ==> applied_is_target(applied, *target),
        r matches Err(e) ==> e == PrivilegeDropError::CredentialMismatch,
{
    let uid = target.uid;
    let gid = target.gid;
    if observed.real_uid != uid || observed.effective_uid != uid || observed.saved_uid != uid
        || observed.real_gid != gid || observed.effective_gid != gid || observed.saved_gid != gid {
        return Err(PrivilegeDropError::CredentialMismatch);
    }
    let groups = sorted_supplementary(observed.supplementary_gids.as_slice(), gid);
    proof {
        broadcast use vstd::set::group_set_axioms;
        if groups@.to_set() == target.supplementary_gids@.to_set() {
            lemma_sorted_same_set_equal(groups@, target.supplementary_gids@);
        }
    }
    if !same_groups(groups.as_slice(), target.supplementary_gids.as_slice()) {
        return Err(PrivilegeDropError::CredentialMismatch);
    }
    Ok(AppliedCredentials { uid: observed.real_uid, gid: observed.real_gid, supplementary_gids: groups })
}

/// A credential call a drop makes, with its arguments.
#[derive(Debug, PartialEq, Eq)]
pub enum CredentialRequest<'a> {
    /// Set the supplementary groups to exactly these (an empty list clears them).
    SetSupplementaryGroups(&'a [u32]),
    /// Set the real, effective and saved group ID.
    SetPrimaryGid(u32),
    /// Set the real, effective and saved user ID.
    SetUid(u32),
    /// Read the credentials back, refusing more than this many groups.
    InspectCredentials(usize),
}

/// How far a drop has come: the last call it asked for.
#[derive(Debug, Clone, Copy, PartialEq, Eq, Structural)]
pub enum DropStage {
    /// Nothing asked yet.
    Start,
    /// The supplementary groups were asked to be set.
    GroupsRequested,
    /// The primary group was asked to be set.
    GidRequested,
    /// The user was asked to be set.
    UidRequested,
}

/// What a drop does next.
#[derive(Debug, PartialEq, Eq)]
pub enum DropNext<'a> {
    /// Make this call.
    Call(CredentialRequest<'a>),
    /// Stop with this error; no further call is made.
    Fail(PrivilegeDropError),
}

/// The next step of a drop, given the stage and what the last setter
/// answered (ignored at the start). The target is checked before any call;
/// then the supplementary groups are set to the target's, then the primary
/// group to the target's, then the user to the target's, each only where the
/// call before succeeded; a failed setter ends the drop with its error; the
/// credentials are then read back with room for the target's groups and the
/// primary group.
pub fn drop_step<'a>(
    target: &'a PrivilegeDropTarget,
    stage: DropStage,
    previous: Result<(), SyscallError>,
) -> (r: DropNext<'a>)
    ensures
        match stage {
            DropStage::Start => if target.uid == 0 {
                r == DropNext::Fail(PrivilegeDropError::RootUidDisallowed)
            } else if !valid_supplementary_groups(*target) {
                r == DropNext::Fail(PrivilegeDropError::InvalidSupplementaryGroups)
            } else if target.supplementary_gids@.len() + 1 > usize::MAX {
                r == DropNext::Fail(PrivilegeDropError::VerificationFailed)
            } else {
                r matches DropNext::Call(CredentialRequest::SetSupplementaryGroups(groups))
                    && groups@ == target.supplementary_gids@
            },
            DropStage::GroupsRequested => if previous is Err {
                r == DropNext::Fail(PrivilegeDropError::SetGroupsFailed)
            } else {
                r == DropNext::Call(CredentialRequest::SetPrimaryGid(target.gid))
            },
            DropStage::GidRequested => if previous is Err {
                r == DropNext::Fail(PrivilegeDropError::SetGidFailed)
            } else {
                r == DropNext::Call(CredentialRequest::SetUid(target.uid))
            },
            DropStage::UidRequested => if previous is Err {
                r == DropNext::Fail(PrivilegeDropError::SetUidFailed)
            } else if target.supplementary_gids@.len() + 1 > usize::MAX {
                r == DropNext::Fail(PrivilegeDropError::VerificationFailed)
            } else {
                r == DropNext::Call(
                    CredentialRequest::InspectCredentials(
                        (target.supplementary_gids@.len() + 1) as usize,
                    ),
                )
            },
        },
{
    match stage {
        DropStage::Start => match validate_drop_target(target) {
            Ok(_) => DropNext::Call(
                CredentialRequest::SetSupplementaryGroups(target.supplementary_gids.as_slice()),
            ),
            Err(e) => DropNext::Fail(e),
        },
        DropStage::GroupsRequested => if previous.is_err() {
            DropNext::Fail(PrivilegeDropError::SetGroupsFailed)
        } else {
            DropNext::Call(CredentialRequest::SetPrimaryGid(target.gid))
        },
        DropStage::GidRequested => if previous.is_err() {
            DropNext::Fail(PrivilegeDropError::SetGidFailed)
        } else {
            DropNext::Call(CredentialRequest::SetUid(target.uid))
        },
        DropStage::UidRequested => if previous.is_err() {
            DropNext::Fail(PrivilegeDropError::SetUidFailed)
        } else {
            match target.supplementary_gids.len().checked_add(1) {
                Some(max_groups) => DropNext::Call(CredentialRequest::InspectCredentials(max_groups)),
                None => DropNext::Fail(PrivilegeDropError::VerificationFailed),
            }
        },
    }
}

/// A credential request is one a drop toward `target` makes: the target's
/// supplementary groups, its primary group, its user, or a read-back with
/// room for its groups and the primary group.
pub open spec fn request_for_target(target: PrivilegeDropTarget, request: CredentialRequest) -> bool {
    match request {
        CredentialRequest::SetSupplementaryGroups(groups) => groups@ == target.supplementary_gids@,
        CredentialRequest::SetPrimaryGid(gid) => gid == target.gid,
        CredentialRequest::SetUid(uid) => uid == target.uid,
        CredentialRequest::InspectCredentials(max_groups) => max_groups
            == target.supplementary_gids@.len() + 1,
    }
}

/// What a credential call answered: a setter, or the read-back.
pub enum CredentialAnswer {
    Answered(Result<(), SyscallError>),
    Inspected(Result<ObservedCredentials, SyscallError>),
}

/// Makes a credential call a drop toward `target` asked for; only such
/// calls can be made.
fn perform_credential<S: CredentialSyscalls>(
    syscalls: &S,
    target: &PrivilegeDropTarget,
    request: CredentialRequest,
) -> (r: CredentialAnswer)
    requires
        request_for_target(*target, request),
    ensures
        request is InspectCredentials <==> r is Inspected,
{
    match request {
        CredentialRequest::SetSupplementaryGroups(groups) => CredentialAnswer::Answered(
            syscalls.set_supplementary_groups(groups),
        ),
        CredentialRequest::SetPrimaryGid(gid) => CredentialAnswer::Answered(syscalls.set_primary_gid(gid)),
        CredentialRequest::SetUid(uid) => CredentialAnswer::Answered(syscalls.set_uid(uid)),
        CredentialRequest::InspectCredentials(max_groups) => CredentialAnswer::Inspected(
            syscalls.inspect_credentials(max_groups),
        ),
    }
}

/// The outcome of a drop, given what each credential call answered: the
/// run of `drop_step` over those answers, ended by the verdict on the
/// credentials read back.
pub open spec fn spec_drop_outcome(
    target: PrivilegeDropTarget,
    groups_answer: Result<(), SyscallError>,
    gid_answer: Result<(), SyscallError>,
    uid_answer: Result<(), SyscallError>,
    inspected: Result<ObservedCredentials, SyscallError>,
) -> Result<(), PrivilegeDropError> {
    if target.uid == 0 {
        Err(PrivilegeDropError::RootUidDisallowed)
    } else if !valid_supplementary_groups(target) {
        Err(PrivilegeDropError::InvalidSupplementaryGroups)
    } else if target.supplementary_gids@.len() + 1 > usize::MAX {
        Err(PrivilegeDropError::VerificationFailed)
    } else if groups_answer is Err {
        Err(PrivilegeDropError::SetGroupsFailed)
    } else if gid_answer is Err {
        Err(PrivilegeDropError::SetGidFailed)
    } else if uid_answer is Err {
        Err(PrivilegeDropError::SetUidFailed)
    } else {
        match inspected {
            Err(e) => Err(
                if e == SyscallError::ObservedGroupCountExceeded {
                    PrivilegeDropError::CredentialMismatch
                } else {
                    PrivilegeDropError::VerificationFailed
                },
            ),
            Ok(observed) => if observed_matches(observed, target) {
                Ok(())
            } else {
                Err(PrivilegeDropError::CredentialMismatch)
            },
        }
    }
}

/// A drop's result without the applied credentials.
pub open spec fn drop_verdict(r: Result<AppliedCredentials, PrivilegeDropError>) -> Result<
    (),
    PrivilegeDropError,
> {
    match r {
        Ok(_) => Ok(()),
        Err(e) => Err(e),
    }
}

/// Drops to the target's credentials through `syscalls`, making exactly the
/// calls `drop_step` asks for, with the arguments it gives, and ending with
/// the verdict on the credentials read back. Whatever the calls answered,
/// the result is `spec_drop_outcome` of those answers.
pub fn drop_privileges_with<S: CredentialSyscalls>(syscalls: &S, target: &PrivilegeDropTarget) -> (r:
    Result<AppliedCredentials, PrivilegeDropError>)
    ensures
        exists|
            groups_answer: Result<(), SyscallError>,
            gid_answer: Result<(), SyscallError>,
            uid_answer: Result<(), SyscallError>,
            inspected: Result<ObservedCredentials, SyscallError>,
        |
            drop_verdict(r) == #[trigger] spec_drop_outcome(
                *target,
                groups_answer,
                gid_answer,
                uid_answer,
                inspected,
            ),
        target.uid == 0 ==> r == Err::<AppliedCredentials, PrivilegeDropError>(
            PrivilegeDropError::RootUidDisallowed,
        ),
        target.uid != 0 && !valid_supplementary_groups(*target) ==> r == Err::<
            AppliedCredentials,
            PrivilegeDropError,
        >(PrivilegeDropError::InvalidSupplementaryGroups),
        r matches Ok(applied) ==> applied_is_target(applied, *target),
{
    let ghost unknown: Result<ObservedCredentials, SyscallError> = Err(SyscallError::Failed);
    let groups_answer = match drop_step(target, DropStage::Start, Ok(())) {
        DropNext::Call(request) => match perform_credential(syscalls, target, request) {
            CredentialAnswer::Answered(answer) => answer,
            CredentialAnswer::Inspected(_) => {
                return Err(PrivilegeDropError::VerificationFailed);
            },
        },
        DropNext::Fail(e) => {
            assert(drop_verdict(Err(e)) == spec_drop_outcome(*target, Ok(()), Ok(()), Ok(()), unknown));
            return Err(e);
        },
    };
    let gid_answer = match drop_step(target, DropStage::GroupsRequested, groups_answer) {
        DropNext::Call(request) => match perform_credential(syscalls, target, request) {
            CredentialAnswer::Answered(answer) => answer,
            CredentialAnswer::Inspected(_) => {
                return Err(PrivilegeDropError::VerificationFailed);
            },
        },
        DropNext::Fail(e) => {
            assert(drop_verdict(Err(e)) == spec_drop_outcome(*target, groups_answer, Ok(()), Ok(()), unknown));
            return Err(e);
        },
    };
    let uid_answer = match drop_step(target, DropStage::GidRequested, gid_answer) {
        DropNext::Call(request) => match perform_credential(syscalls, target, request) {
            CredentialAnswer::Answered(answer) => answer,
            CredentialAnswer::Inspected(_) => {
                return Err(PrivilegeDropError::VerificationFailed);
            },
        },
        DropNext::Fail(e) => {
            assert(drop_verdict(Err(e)) == spec_drop_outcome(*target, groups_answer, gid_answer, Ok(()), unknown));
            return Err(e);
        },
    };
    let inspected = match drop_step(target, DropStage::UidRequested, uid_answer) {
        DropNext::Call(request) => match perform_credential(syscalls, target, request) {
            CredentialAnswer::Inspected(answer) => answer,
            CredentialAnswer::Answered(_) => {
                return Err(PrivilegeDropError::VerificationFailed);
            },
        },
        DropNext::Fail(e) => {
            assert(drop_verdict(Err(e)) == spec_drop_outcome(*target, groups_answer, gid_answer, uid_answer, unknown));
            return Err(e);
        },
    };
    let ghost inspected_answer = inspected;
    let r = match inspected {
        Ok(observed) => verify_observed_credentials(observed, target),
        Err(e) => Err(inspection_error(e)),
    };
    assert(drop_verdict(r) == spec_drop_outcome(
        *target,
        groups_answer,
        gid_answer,
        uid_answer,
        inspected_answer,
    ));
    r
}

} // verus!
