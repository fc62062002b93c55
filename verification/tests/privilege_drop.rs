use std::sync::Mutex;

use niralis_session_worker::identity::{ResolvedUnixCredentials, UnixIdentity};
use niralis_session_worker::privilege_drop::{
    bounded_max_observed_groups, drop_privileges_with, drop_step, filled_group_count,
    inspection_error, CredentialRequest, DropNext, DropStage,
    observed_group_count, validate_drop_target, verify_observed_credentials, CredentialSyscalls,
    ObservedCredentials, PrivilegeDropError, PrivilegeDropTarget, SyscallError,
    HARD_MAX_OBSERVED_GROUPS, HARD_MAX_SUPPLEMENTARY_GROUPS,
};

#[derive(Debug, Clone, PartialEq, Eq)]
enum Call {
    SetGroups(Vec<u32>),
    SetGid(u32),
    SetUid(u32),
    Inspect(usize),
}

struct RecordingSyscalls {
    calls: Mutex<Vec<Call>>,
    setgroups: Result<(), SyscallError>,
    setgid: Result<(), SyscallError>,
    setuid: Result<(), SyscallError>,
    observed: Result<ObservedCredentials, SyscallError>,
}

impl CredentialSyscalls for RecordingSyscalls {
    fn set_supplementary_groups(&self, groups: &[u32]) -> Result<(), SyscallError> {
        self.calls
            .lock()
            .unwrap()
            .push(Call::SetGroups(groups.to_vec()));
        self.setgroups
    }

    fn set_primary_gid(&self, gid: u32) -> Result<(), SyscallError> {
        self.calls.lock().unwrap().push(Call::SetGid(gid));
        self.setgid
    }

    fn set_uid(&self, uid: u32) -> Result<(), SyscallError> {
        self.calls.lock().unwrap().push(Call::SetUid(uid));
        self.setuid
    }

    fn inspect_credentials(&self, max_groups: usize) -> Result<ObservedCredentials, SyscallError> {
        self.calls.lock().unwrap().push(Call::Inspect(max_groups));
        self.observed.clone()
    }
}

fn credentials(groups: Vec<u32>) -> PrivilegeDropTarget {
    let resolved = ResolvedUnixCredentials {
        identity: UnixIdentity {
            username: "user".to_owned(),
            uid: 1000,
            gid: 1000,
            home: b"/home/user".to_vec(),
            shell: b"/bin/sh".to_vec(),
        },
        supplementary_gids: groups,
    };
    PrivilegeDropTarget::from_credentials(&resolved)
}

fn observed(groups: Vec<u32>) -> ObservedCredentials {
    ObservedCredentials {
        real_uid: 1000,
        effective_uid: 1000,
        saved_uid: 1000,
        real_gid: 1000,
        effective_gid: 1000,
        saved_gid: 1000,
        supplementary_gids: groups,
    }
}

fn success(groups: Vec<u32>) -> RecordingSyscalls {
    RecordingSyscalls {
        calls: Mutex::new(Vec::new()),
        setgroups: Ok(()),
        setgid: Ok(()),
        setuid: Ok(()),
        observed: Ok(observed(groups)),
    }
}

#[test]
fn applies_credentials_in_required_order() {
    let syscalls = success(vec![1000, 30, 10, 20]);
    let result = drop_privileges_with(&syscalls, &credentials(vec![10, 20, 30]))
        .expect("drop should succeed");

    assert_eq!(result.uid, 1000);
    assert_eq!(
        *syscalls.calls.lock().unwrap(),
        vec![
            Call::SetGroups(vec![10, 20, 30]),
            Call::SetGid(1000),
            Call::SetUid(1000),
            Call::Inspect(4),
        ]
    );
}

#[test]
fn empty_groups_are_explicitly_cleared() {
    let syscalls = success(vec![1000]);
    drop_privileges_with(&syscalls, &credentials(vec![])).expect("drop should succeed");
    assert_eq!(syscalls.calls.lock().unwrap()[0], Call::SetGroups(vec![]));
}

#[test]
fn setter_failures_stop_the_sequence() {
    let cases = [
        (Err(SyscallError::Failed), Ok(()), Ok(()), 1),
        (Ok(()), Err(SyscallError::Failed), Ok(()), 2),
        (Ok(()), Ok(()), Err(SyscallError::Failed), 3),
    ];
    for (setgroups, setgid, setuid, call_count) in cases {
        let syscalls = RecordingSyscalls {
            calls: Mutex::new(Vec::new()),
            setgroups,
            setgid,
            setuid,
            observed: Ok(observed(vec![1000])),
        };
        assert!(drop_privileges_with(&syscalls, &credentials(vec![])).is_err());
        assert_eq!(syscalls.calls.lock().unwrap().len(), call_count);
    }
}

#[test]
fn mismatches_are_rejected_after_inspection() {
    let fields: [fn(&mut ObservedCredentials); 6] = [
        |value| value.real_uid = 1001,
        |value| value.effective_uid = 1001,
        |value| value.saved_uid = 1001,
        |value| value.real_gid = 1001,
        |value| value.effective_gid = 1001,
        |value| value.saved_gid = 1001,
    ];
    for mutate in fields {
        let mut mismatch = observed(vec![1000]);
        mutate(&mut mismatch);
        let syscalls = RecordingSyscalls {
            calls: Mutex::new(Vec::new()),
            setgroups: Ok(()),
            setgid: Ok(()),
            setuid: Ok(()),
            observed: Ok(mismatch),
        };
        assert_eq!(
            drop_privileges_with(&syscalls, &credentials(vec![])),
            Err(PrivilegeDropError::CredentialMismatch)
        );
    }
}

#[test]
fn supplementary_group_mismatch_is_rejected() {
    let syscalls = success(vec![1000, 10, 30]);
    assert_eq!(
        drop_privileges_with(&syscalls, &credentials(vec![10, 20])),
        Err(PrivilegeDropError::CredentialMismatch)
    );
}

#[test]
fn excessive_observed_group_count_is_credential_mismatch() {
    let syscalls = RecordingSyscalls {
        calls: Mutex::new(Vec::new()),
        setgroups: Ok(()),
        setgid: Ok(()),
        setuid: Ok(()),
        observed: Err(SyscallError::ObservedGroupCountExceeded),
    };
    assert_eq!(
        drop_privileges_with(&syscalls, &credentials(vec![10, 20])),
        Err(PrivilegeDropError::CredentialMismatch)
    );
}

#[test]
fn observed_group_limit_allows_primary_gid_entry() {
    assert_eq!(HARD_MAX_OBSERVED_GROUPS, 65_537);
    assert_eq!(
        bounded_max_observed_groups(HARD_MAX_SUPPLEMENTARY_GROUPS + 1),
        HARD_MAX_OBSERVED_GROUPS
    );
}

#[test]
fn primary_gid_in_observed_groups_is_ignored_for_comparison() {
    let syscalls = success(vec![20, 1000, 10, 10]);
    drop_privileges_with(&syscalls, &credentials(vec![10, 20]))
        .expect("primary group should be ignored");
}

#[test]
fn primary_gid_in_requested_groups_is_rejected_before_mutation() {
    let syscalls = success(vec![1000]);
    assert_eq!(
        drop_privileges_with(&syscalls, &credentials(vec![1000])),
        Err(PrivilegeDropError::InvalidSupplementaryGroups)
    );
    assert!(syscalls.calls.lock().unwrap().is_empty());
}

#[test]
fn successful_drop_reports_exactly_the_target() {
    let syscalls = success(vec![30, 1000, 10, 30]);
    let target = credentials(vec![10, 30]);
    let applied = drop_privileges_with(&syscalls, &target).expect("drop");
    assert_eq!(applied.uid, target.uid);
    assert_eq!(applied.gid, target.gid);
    assert_eq!(applied.supplementary_gids, target.supplementary_gids);
}

#[test]
fn root_and_unordered_targets_are_refused_before_any_call() {
    let syscalls = success(vec![0]);
    let root = PrivilegeDropTarget {
        uid: 0,
        gid: 0,
        supplementary_gids: vec![],
    };
    assert_eq!(
        drop_privileges_with(&syscalls, &root),
        Err(PrivilegeDropError::RootUidDisallowed)
    );
    let unordered = PrivilegeDropTarget {
        uid: 1000,
        gid: 1000,
        supplementary_gids: vec![20, 10],
    };
    assert_eq!(
        drop_privileges_with(&syscalls, &unordered),
        Err(PrivilegeDropError::InvalidSupplementaryGroups)
    );
    let duplicated = PrivilegeDropTarget {
        uid: 1000,
        gid: 1000,
        supplementary_gids: vec![10, 10],
    };
    assert_eq!(
        validate_drop_target(&duplicated),
        Err(PrivilegeDropError::InvalidSupplementaryGroups)
    );
    assert!(syscalls.calls.lock().unwrap().is_empty());
    assert_eq!(validate_drop_target(&credentials(vec![1, 2])), Ok(3));
}

#[test]
fn other_inspection_failures_are_verification_failures() {
    assert_eq!(
        inspection_error(SyscallError::Failed),
        PrivilegeDropError::VerificationFailed
    );
    assert_eq!(
        inspection_error(SyscallError::InvalidCount),
        PrivilegeDropError::VerificationFailed
    );
    let syscalls = RecordingSyscalls {
        calls: Mutex::new(Vec::new()),
        setgroups: Ok(()),
        setgid: Ok(()),
        setuid: Ok(()),
        observed: Err(SyscallError::Failed),
    };
    assert_eq!(
        drop_privileges_with(&syscalls, &credentials(vec![])),
        Err(PrivilegeDropError::VerificationFailed)
    );
}

#[test]
fn observed_groups_are_compared_as_sets() {
    let target = credentials(vec![5, 7]);
    let applied = verify_observed_credentials(observed(vec![7, 1000, 5, 7, 5]), &target)
        .expect("same groups");
    assert_eq!(applied.supplementary_gids, vec![5, 7]);
    assert_eq!(
        verify_observed_credentials(observed(vec![5]), &target),
        Err(PrivilegeDropError::CredentialMismatch)
    );
    assert_eq!(
        verify_observed_credentials(observed(vec![5, 7, 8]), &target),
        Err(PrivilegeDropError::CredentialMismatch)
    );
}

#[test]
fn group_counts_read_back_are_bounded() {
    assert_eq!(observed_group_count(3, 4), Ok(3));
    assert_eq!(
        observed_group_count(5, 4),
        Err(SyscallError::ObservedGroupCountExceeded)
    );
    assert_eq!(observed_group_count(-1, 4), Err(SyscallError::InvalidCount));
    assert_eq!(filled_group_count(2, 3), Ok(2));
    assert_eq!(filled_group_count(4, 3), Err(SyscallError::InvalidCount));
    assert_eq!(bounded_max_observed_groups(12), 12);
}

#[test]
fn drop_steps_ask_for_the_target_credentials_in_order() {
    let target = credentials(vec![10, 20, 30]);
    assert_eq!(
        drop_step(&target, DropStage::Start, Ok(())),
        DropNext::Call(CredentialRequest::SetSupplementaryGroups(&[10, 20, 30]))
    );
    assert_eq!(
        drop_step(&target, DropStage::GroupsRequested, Ok(())),
        DropNext::Call(CredentialRequest::SetPrimaryGid(1000))
    );
    assert_eq!(
        drop_step(&target, DropStage::GidRequested, Ok(())),
        DropNext::Call(CredentialRequest::SetUid(1000))
    );
    assert_eq!(
        drop_step(&target, DropStage::UidRequested, Ok(())),
        DropNext::Call(CredentialRequest::InspectCredentials(4))
    );
    assert_eq!(
        drop_step(&target, DropStage::GidRequested, Err(SyscallError::Failed)),
        DropNext::Fail(PrivilegeDropError::SetGidFailed)
    );
    let root = PrivilegeDropTarget { uid: 0, gid: 0, supplementary_gids: vec![] };
    assert_eq!(
        drop_step(&root, DropStage::Start, Ok(())),
        DropNext::Fail(PrivilegeDropError::RootUidDisallowed)
    );
}
