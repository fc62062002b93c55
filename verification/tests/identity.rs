use std::sync::atomic::{AtomicUsize, Ordering};
use std::sync::Mutex;

use niralis_session_worker::identity::{
    classify_getgrouplist_result, initial_buffer_size_from, lookup_user_with, next_buffer_size,
    normalize_groups, required_capacity, resolve_groups_with, supplementary_group_limit,
    valid_count, GroupListLookup, GroupListReply, GroupLookupResult, GroupResolutionError,
    IdentityError, LookupResult, NssSupplementaryGroupsResolver, NssUnixIdentityResolver,
    PasswdLookup, PasswdRecord, SupplementaryGroupsResolver, UnixIdentity, UnixIdentityResolver,
    DEFAULT_BUFFER_SIZE, MAX_BUFFER_SIZE,
};

struct StubLookup {
    initial: usize,
    calls: AtomicUsize,
    sizes: Mutex<Vec<usize>>,
    names: Mutex<Vec<Vec<u8>>>,
    responses: Vec<LookupResult>,
}

impl StubLookup {
    fn new(initial: usize, responses: Vec<LookupResult>) -> Self {
        StubLookup {
            initial,
            calls: AtomicUsize::new(0),
            sizes: Mutex::new(Vec::new()),
            names: Mutex::new(Vec::new()),
            responses,
        }
    }
}

impl PasswdLookup for StubLookup {
    fn initial_buffer_size(&self) -> usize {
        self.initial
    }

    fn lookup(&self, username: &[u8], buffer_size: usize) -> LookupResult {
        let call = self.calls.fetch_add(1, Ordering::SeqCst);
        self.sizes.lock().unwrap().push(buffer_size);
        self.names.lock().unwrap().push(username.to_vec());
        self.responses
            .get(call)
            .cloned()
            .unwrap_or(LookupResult::Failure)
    }
}

fn record(name: &[u8], uid: u32, gid: u32, dir: &[u8], shell: &[u8]) -> PasswdRecord {
    PasswdRecord {
        name: name.to_vec(),
        uid,
        gid,
        dir: dir.to_vec(),
        shell: shell.to_vec(),
    }
}

#[test]
fn rejects_username_with_nul() {
    let resolver = NssUnixIdentityResolver {
        lookup: StubLookup::new(8, vec![LookupResult::Failure]),
    };

    let error = resolver.resolve("bad\0user").expect_err("NUL should fail");

    assert_eq!(error, IdentityError::InvalidUsername);
    assert_eq!(resolver.lookup.calls.load(Ordering::SeqCst), 0);
}

#[test]
fn resolves_identity_and_preserves_unix_path_bytes() {
    let lookup = StubLookup::new(
        8,
        vec![LookupResult::Success(record(
            b"caue",
            1000,
            1001,
            b"/home/\xFF",
            b"/bin/\xFE",
        ))],
    );

    let identity = lookup_user_with("alias", &lookup).expect("identity should resolve");

    assert_eq!(identity.username, "caue");
    assert_eq!(identity.uid, 1000);
    assert_eq!(identity.gid, 1001);
    assert_eq!(identity.home, b"/home/\xFF".to_vec());
    assert_eq!(identity.shell, b"/bin/\xFE".to_vec());
    assert_eq!(lookup.names.lock().unwrap()[0], b"alias".to_vec());
}

#[test]
fn returns_not_found_for_missing_user() {
    let lookup = StubLookup::new(8, vec![LookupResult::NotFound]);
    assert_eq!(
        lookup_user_with("missing", &lookup),
        Err(IdentityError::NotFound)
    );
}

#[test]
fn lookup_failure_is_reported() {
    let lookup = StubLookup::new(8, vec![LookupResult::Failure]);
    assert_eq!(
        lookup_user_with("user", &lookup),
        Err(IdentityError::LookupFailed)
    );
}

#[test]
fn range_doubles_the_buffer_until_success() {
    let lookup = StubLookup::new(
        8,
        vec![
            LookupResult::Range,
            LookupResult::Range,
            LookupResult::Success(record(b"user", 1, 2, b"/", b"/bin/sh")),
        ],
    );
    let identity = lookup_user_with("user", &lookup).expect("identity");
    assert_eq!(identity.uid, 1);
    assert_eq!(*lookup.sizes.lock().unwrap(), vec![8, 16, 32]);
}

#[test]
fn range_at_the_maximum_buffer_is_a_limit_error() {
    let lookup = StubLookup::new(MAX_BUFFER_SIZE * 4, vec![LookupResult::Range]);
    assert_eq!(
        lookup_user_with("user", &lookup),
        Err(IdentityError::BufferLimitExceeded)
    );
    assert_eq!(*lookup.sizes.lock().unwrap(), vec![MAX_BUFFER_SIZE]);
}

#[test]
fn empty_or_invalid_canonical_name_is_rejected() {
    let empty = StubLookup::new(8, vec![LookupResult::Success(record(b"", 1, 1, b"", b""))]);
    assert_eq!(
        lookup_user_with("user", &empty),
        Err(IdentityError::InvalidCanonicalUsername)
    );
    let invalid = StubLookup::new(
        8,
        vec![LookupResult::Success(record(b"\xFFuser", 1, 1, b"", b""))],
    );
    assert_eq!(
        lookup_user_with("user", &invalid),
        Err(IdentityError::InvalidCanonicalUsername)
    );
}

#[test]
fn buffer_sizes_follow_the_system_hint() {
    assert_eq!(initial_buffer_size_from(4096), 4096);
    assert_eq!(initial_buffer_size_from(0), DEFAULT_BUFFER_SIZE);
    assert_eq!(initial_buffer_size_from(-1), DEFAULT_BUFFER_SIZE);
    assert_eq!(next_buffer_size(16), 32);
    assert_eq!(next_buffer_size(MAX_BUFFER_SIZE / 2 + 1), MAX_BUFFER_SIZE);
}

struct GroupStub {
    limit: i64,
    calls: AtomicUsize,
    responses: Vec<(GroupLookupResult, i32, Vec<u32>)>,
    username: Mutex<Option<Vec<u8>>>,
    primary_gid: Mutex<Option<u32>>,
    capacities: Mutex<Vec<usize>>,
}

impl GroupStub {
    fn new(responses: Vec<(GroupLookupResult, i32, Vec<u32>)>) -> Self {
        GroupStub {
            limit: 65_536,
            calls: AtomicUsize::new(0),
            responses,
            username: Mutex::new(None),
            primary_gid: Mutex::new(None),
            capacities: Mutex::new(Vec::new()),
        }
    }
}

impl GroupListLookup for GroupStub {
    fn ngroups_max(&self) -> i64 {
        self.limit
    }

    fn lookup(&self, username: &[u8], primary_gid: u32, capacity: usize) -> GroupListReply {
        *self.username.lock().unwrap() = Some(username.to_vec());
        *self.primary_gid.lock().unwrap() = Some(primary_gid);
        self.capacities.lock().unwrap().push(capacity);
        let call = self.calls.fetch_add(1, Ordering::SeqCst);
        let (result, ngroups, groups) = self
            .responses
            .get(call)
            .cloned()
            .unwrap_or((GroupLookupResult::Failure, 0, Vec::new()));
        GroupListReply {
            result,
            ngroups,
            groups,
        }
    }
}

fn group_identity(username: &str, gid: u32) -> UnixIdentity {
    UnixIdentity {
        username: username.to_owned(),
        uid: 1000,
        gid,
        home: b"/home/user".to_vec(),
        shell: b"/bin/sh".to_vec(),
    }
}

#[test]
fn group_lookup_uses_canonical_username_and_primary_gid() {
    let lookup = GroupStub::new(vec![(GroupLookupResult::Success, 3, vec![1002, 1000, 1001])]);

    let groups = resolve_groups_with(&group_identity("canonical-user", 1000), &lookup)
        .expect("groups should resolve");

    assert_eq!(groups, vec![1001, 1002]);
    assert_eq!(
        lookup.username.lock().unwrap().clone(),
        Some(b"canonical-user".to_vec())
    );
    assert_eq!(*lookup.primary_gid.lock().unwrap(), Some(1000));
}

#[test]
fn group_lookup_removes_primary_and_deduplicates() {
    let lookup = GroupStub::new(vec![(
        GroupLookupResult::Success,
        5,
        vec![1002, 1000, 1002, 1001, 1000],
    )]);

    assert_eq!(
        resolve_groups_with(&group_identity("user", 1000), &lookup).expect("groups"),
        vec![1001, 1002]
    );
}

#[test]
fn group_lookup_retries_after_buffer_shortage() {
    let lookup = GroupStub::new(vec![
        (GroupLookupResult::BufferTooSmall, 17, vec![0; 16]),
        (GroupLookupResult::Success, 3, vec![1002, 1000, 1001]),
    ]);

    assert_eq!(
        resolve_groups_with(&group_identity("user", 1000), &lookup).expect("groups"),
        vec![1001, 1002]
    );
    assert_eq!(lookup.calls.load(Ordering::SeqCst), 2);
    assert_eq!(*lookup.capacities.lock().unwrap(), vec![16, 17]);
}

#[test]
fn group_lookup_rejects_inconsistent_shortage() {
    let lookup = GroupStub::new(vec![(GroupLookupResult::BufferTooSmall, 16, vec![0; 16])]);

    assert_eq!(
        resolve_groups_with(&group_identity("user", 1000), &lookup),
        Err(GroupResolutionError::LookupFailed)
    );
}

#[test]
fn group_lookup_stops_after_maximum_attempts() {
    let lookup = GroupStub::new(
        (17..25)
            .map(|count| (GroupLookupResult::BufferTooSmall, count, vec![0; 16]))
            .collect(),
    );

    assert_eq!(
        resolve_groups_with(&group_identity("user", 1000), &lookup),
        Err(GroupResolutionError::LookupFailed)
    );
    assert_eq!(lookup.calls.load(Ordering::SeqCst), 8);
}

#[test]
fn group_lookup_rejects_required_count_above_limit() {
    let lookup = GroupStub::new(vec![(
        GroupLookupResult::BufferTooSmall,
        65_538,
        vec![0; 16],
    )]);

    assert_eq!(
        resolve_groups_with(&group_identity("user", 1000), &lookup),
        Err(GroupResolutionError::TooManyGroups)
    );
}

#[test]
fn group_lookup_rejects_username_with_nul() {
    let resolver = NssSupplementaryGroupsResolver {
        lookup: GroupStub::new(vec![]),
    };
    let error = resolver
        .resolve(&group_identity("bad\0user", 1000))
        .expect_err("NUL should fail");
    assert_eq!(error, GroupResolutionError::InvalidUsername);
    assert_eq!(resolver.lookup.calls.load(Ordering::SeqCst), 0);
}

#[test]
fn getgrouplist_results_are_classified() {
    assert_eq!(
        classify_getgrouplist_result(-1),
        GroupLookupResult::BufferTooSmall
    );
    assert_eq!(classify_getgrouplist_result(0), GroupLookupResult::Success);
    assert_eq!(classify_getgrouplist_result(7), GroupLookupResult::Success);
    assert_eq!(classify_getgrouplist_result(-2), GroupLookupResult::Failure);
}

#[test]
fn group_counts_are_bounded() {
    assert_eq!(required_capacity(17, 16, 100), Ok(17));
    assert_eq!(
        required_capacity(16, 16, 100),
        Err(GroupResolutionError::LookupFailed)
    );
    assert_eq!(
        required_capacity(-3, 16, 100),
        Err(GroupResolutionError::LookupFailed)
    );
    assert_eq!(
        required_capacity(101, 16, 100),
        Err(GroupResolutionError::TooManyGroups)
    );
    assert_eq!(valid_count(3, 16, 100), Ok(3));
    assert_eq!(
        valid_count(17, 16, 100),
        Err(GroupResolutionError::LookupFailed)
    );
    assert_eq!(
        valid_count(-1, 16, 100),
        Err(GroupResolutionError::LookupFailed)
    );
    assert_eq!(supplementary_group_limit(32), 32);
    assert_eq!(supplementary_group_limit(0), 65_536);
    assert_eq!(supplementary_group_limit(1 << 40), 65_536);
}

#[test]
fn normalized_groups_are_sorted_unique_and_limited() {
    assert_eq!(normalize_groups(&[5, 3, 5, 9, 3], 9, 10), Ok(vec![3, 5]));
    assert_eq!(
        normalize_groups(&[1, 2, 3], 0, 2),
        Err(GroupResolutionError::TooManyGroups)
    );
    assert_eq!(normalize_groups(&[4, 4, 4], 4, 0), Ok(vec![]));
}
