use niralis_session_worker::isolation::assemble_post_drop_proof;
use niralis_session_worker::isolation::{
    bits, fds_to_close, parse_cap_last_cap, sorted_unique_fds, valid_capabilities, valid_fds,
    validate_isolation_proof, validate_isolation_proof_with_allowed_fds, CapabilityState,
    FdSanitizationError, InheritedFdSanitizer, IsolationPolicyError, PostDropAuditError,
    PostDropIsolationProof, DANGEROUS_SECUREBITS_MASK, HARD_MAX_CAPABILITY_ID,
};

fn baseline() -> PostDropIsolationProof {
    PostDropIsolationProof {
        capabilities: CapabilityState {
            effective: vec![],
            permitted: vec![],
            inheritable: vec![],
            ambient: vec![1],
            bounding: vec![0, 1],
            cap_last_cap: 2,
        },
        securebits: 0,
        no_new_privs: false,
        open_fds: vec![0, 1, 2],
    }
}

#[test]
fn policy_rejects_active_sets_and_dangerous_state() {
    for mutate in [
        |p: &mut PostDropIsolationProof| p.capabilities.effective = vec![1],
        |p: &mut PostDropIsolationProof| p.capabilities.permitted = vec![1],
        |p: &mut PostDropIsolationProof| p.capabilities.inheritable = vec![1],
        |p: &mut PostDropIsolationProof| p.capabilities.ambient = vec![1],
        |p: &mut PostDropIsolationProof| p.securebits = 1,
        |p: &mut PostDropIsolationProof| p.open_fds = vec![0, 1, 2, 9],
    ] {
        let mut value = baseline();
        mutate(&mut value);
        assert!(validate_isolation_proof(&value).is_err());
    }
}

#[test]
fn policy_allows_bounding_and_no_new_privs() {
    let mut value = baseline();
    value.capabilities.ambient.clear();
    value.no_new_privs = true;
    assert_eq!(validate_isolation_proof(&value), Ok(()));
}

fn clean() -> PostDropIsolationProof {
    let mut value = baseline();
    value.capabilities.ambient.clear();
    value
}

#[test]
fn each_violation_has_its_own_error_in_check_order() {
    let mut value = clean();
    value.capabilities.cap_last_cap = HARD_MAX_CAPABILITY_ID + 1;
    assert_eq!(
        validate_isolation_proof(&value),
        Err(IsolationPolicyError::InvalidCapabilityStructure)
    );
    let mut value = clean();
    value.capabilities.bounding = vec![1, 0];
    assert_eq!(
        validate_isolation_proof(&value),
        Err(IsolationPolicyError::InvalidCapabilityStructure)
    );
    let mut value = clean();
    value.capabilities.bounding = vec![3];
    assert_eq!(
        validate_isolation_proof(&value),
        Err(IsolationPolicyError::InvalidCapabilityStructure)
    );
    let mut value = clean();
    value.open_fds = vec![0, 2, 1];
    assert_eq!(
        validate_isolation_proof(&value),
        Err(IsolationPolicyError::InvalidFdStructure)
    );
    let mut value = clean();
    value.open_fds = vec![-1, 0, 1, 2];
    assert_eq!(
        validate_isolation_proof(&value),
        Err(IsolationPolicyError::InvalidFdStructure)
    );
    let mut value = clean();
    value.capabilities.permitted = vec![0];
    assert_eq!(
        validate_isolation_proof(&value),
        Err(IsolationPolicyError::ActiveCapabilitiesPresent)
    );
    let mut value = clean();
    value.securebits = 4;
    assert_eq!(
        validate_isolation_proof(&value),
        Err(IsolationPolicyError::DangerousSecurebits)
    );
    let mut value = clean();
    value.securebits = 2;
    assert_eq!(validate_isolation_proof(&value), Ok(()));
    assert_eq!(DANGEROUS_SECUREBITS_MASK, 5);
    let mut value = clean();
    value.open_fds = vec![0, 1];
    assert_eq!(
        validate_isolation_proof(&value),
        Err(IsolationPolicyError::UnexpectedFileDescriptors)
    );
}

#[test]
fn allowed_descriptors_may_stay_open() {
    let mut value = clean();
    value.open_fds = vec![0, 1, 2, 7];
    assert_eq!(
        validate_isolation_proof_with_allowed_fds(&value, &[7, 7, 1]),
        Ok(())
    );
    assert_eq!(
        validate_isolation_proof_with_allowed_fds(&value, &[8]),
        Err(IsolationPolicyError::UnexpectedFileDescriptors)
    );
    value.open_fds = vec![0, 1, 2];
    assert_eq!(
        validate_isolation_proof_with_allowed_fds(&value, &[7]),
        Err(IsolationPolicyError::UnexpectedFileDescriptors)
    );
}

#[test]
fn capability_and_descriptor_lists_must_ascend() {
    assert!(valid_capabilities(&[0, 5, 9], 9));
    assert!(!valid_capabilities(&[0, 10], 9));
    assert!(!valid_capabilities(&[3, 3], 9));
    assert!(valid_fds(&[0, 1, 5]));
    assert!(!valid_fds(&[1, 0]));
    assert!(!valid_fds(&[-2]));
}

#[test]
fn capability_bits_are_decoded_up_to_the_last_capability() {
    assert_eq!(bits(&[0b1011, 0], 40), vec![0, 1, 3]);
    assert_eq!(bits(&[0, 1 << 8], 40), vec![40]);
    assert_eq!(bits(&[0, 1 << 9], 40), Vec::<u32>::new());
    assert_eq!(bits(&[u32::MAX, u32::MAX], 33), (0..=33).collect::<Vec<u32>>());
}

#[test]
fn sanitizing_closes_only_unallowed_descriptors_from_three() {
    assert_eq!(fds_to_close(&[0, 1, 2, 3, 9, 4], &[9]), vec![3, 4]);
    assert_eq!(sorted_unique_fds(&[5, 0, 5, 2]), vec![0, 2, 5]);
}

#[test]
fn cap_last_cap_text_is_read_and_bounded() {
    assert_eq!(parse_cap_last_cap("40\n"), Ok(40));
    assert_eq!(parse_cap_last_cap(" 63 "), Ok(63));
    assert_eq!(
        parse_cap_last_cap("64\n"),
        Err(PostDropAuditError::UnsupportedCapabilityRange)
    );
    assert_eq!(parse_cap_last_cap("x"), Err(PostDropAuditError::Failed));
    assert_eq!(parse_cap_last_cap(""), Err(PostDropAuditError::Failed));
}

struct OnlyPlainSanitize;

impl InheritedFdSanitizer for OnlyPlainSanitize {
    fn sanitize(&self) -> Result<(), FdSanitizationError> {
        Ok(())
    }
}

#[test]
fn default_allowlist_sanitizing_accepts_only_an_empty_list() {
    assert_eq!(OnlyPlainSanitize.sanitize_with_allowlist(&[]), Ok(()));
    assert_eq!(
        OnlyPlainSanitize.sanitize_with_allowlist(&[5]),
        Err(FdSanitizationError::Failed)
    );
}

#[test]
fn audit_assembly_lists_the_capabilities_each_query_reported() {
    let proof = assemble_post_drop_proof(3, &[0b0101], &[0], &[0], &[0, 1, 0, 1], &[1, 1, 0, 0], 0, true, &[2, 0, 1, 2])
        .unwrap();
    assert_eq!(proof.capabilities.effective, vec![0, 2]);
    assert_eq!(proof.capabilities.ambient, vec![1, 3]);
    assert_eq!(proof.capabilities.bounding, vec![0, 1]);
    assert_eq!(proof.capabilities.cap_last_cap, 3);
    assert_eq!(proof.open_fds, vec![0, 1, 2]);
    assert!(proof.no_new_privs);
    assert_eq!(
        assemble_post_drop_proof(3, &[0], &[0], &[0], &[0, -1, 0, 0], &[0, 0, 0, 0], 0, true, &[]),
        Err(PostDropAuditError::Failed)
    );
}
