//! The canonical Unix identity of the authenticated user: the passwd entry
//! and the supplementary groups, with the rules that read them.
use vstd::prelude::*;

use crate::text::{has_byte, str_bytes, string_from_bytes, utf8_bytes};

verus! {

/// The passwd entry of a user. Home and shell keep their raw bytes.
#[derive(Debug, Clone, PartialEq, Eq)]
pub struct UnixIdentity {
    pub username: String,
    pub uid: u32,
    pub gid: u32,
    pub home: Vec<u8>,
    pub shell: Vec<u8>,
}

#[derive(Debug, Clone, Copy, PartialEq, Eq, Structural)]
pub enum IdentityError {
    NotFound,
    InvalidUsername,
    InvalidCanonicalUsername,
    LookupFailed,
    BufferLimitExceeded,
}

#[derive(Debug, Clone, Copy, PartialEq, Eq, Structural)]
pub enum GroupResolutionError {
    InvalidUsername,
    TooManyGroups,
    LookupFailed,
}

/// A user's identity together with the supplementary groups it carries.
#[derive(Debug, Clone, PartialEq, Eq)]
pub struct ResolvedUnixCredentials {
    pub identity: UnixIdentity,
    pub supplementary_gids: Vec<u32>,
}

pub trait UnixIdentityResolver: Send + Sync {
    fn resolve(&self, username: &str) -> Result<UnixIdentity, IdentityError>;
}

pub trait SupplementaryGroupsResolver: Send + Sync {
    fn resolve(&self, identity: &UnixIdentity) -> Result<Vec<u32>, GroupResolutionError>;
}

/// The fields of a passwd record; a field the record leaves unset is empty.
#[derive(Debug, Clone, PartialEq, Eq)]
pub struct PasswdRecord {
    pub name: Vec<u8>,
    pub uid: u32,
    pub gid: u32,
    pub dir: Vec<u8>,
    pub shell: Vec<u8>,
}

/// What one `getpwnam_r` call reports.
#[derive(Debug, Clone, PartialEq, Eq)]
pub enum LookupResult {
    Success(PasswdRecord),
    NotFound,
    Range,
    Failure,
}

/// One passwd lookup with a buffer of a given size.
pub trait PasswdLookup {
    /// The buffer size to start with.
    fn initial_buffer_size(&self) -> usize;

    /// Looks up `username` (without its terminating NUL) with a buffer of
    /// `buffer_size` bytes.
    fn lookup(&self, username: &[u8], buffer_size: usize) -> LookupResult;
}

/// Buffer size used where the system gives no hint.
pub const DEFAULT_BUFFER_SIZE: usize = 16384;

/// Largest buffer the lookup grows to.
pub const MAX_BUFFER_SIZE: usize = 1048576;

/// The buffer size to start with, from `sysconf(_SC_GETPW_R_SIZE_MAX)`.
pub fn initial_buffer_size_from(raw: i64) -> (r: usize)
    ensures
        r == (if raw > 0 && raw <= usize::MAX {
            raw as usize
        } else {
            DEFAULT_BUFFER_SIZE
        }),
{
    if raw > 0 && (raw as u64) <= (usize::MAX as u64) {
        raw as usize
    } else {
        DEFAULT_BUFFER_SIZE
    }
}

/// The next buffer size after `ERANGE`: doubled, up to the maximum.
pub open spec fn spec_next_buffer_size(size: nat) -> nat {
    if 2 * size < MAX_BUFFER_SIZE {
        2 * size
    } else {
        MAX_BUFFER_SIZE as nat
    }
}

pub fn next_buffer_size(size: usize) -> (r: usize)
    requires
        size <= MAX_BUFFER_SIZE,
    ensures
        r == spec_next_buffer_size(size as nat),
{
    let doubled = size * 2;
    if doubled < MAX_BUFFER_SIZE {
        doubled
    } else {
        MAX_BUFFER_SIZE
    }
}

/// The identity a passwd record gives: its name must be non-empty UTF-8.
pub open spec fn spec_record_ok(record: PasswdRecord) -> bool {
    record.name@.len() > 0 && vstd::utf8::valid_utf8(record.name@)
}

pub fn passwd_to_identity(record: PasswdRecord) -> (r: Result<UnixIdentity, IdentityError>)
    ensures
        r is Ok <==> spec_record_ok(record),
        r matches Ok(id) ==> utf8_bytes(id.username@) == record.name@ && id.uid == record.uid
            && id.gid == record.gid && id.home@ == record.dir@ && id.shell@ == record.shell@,
        r matches Err(e) ==> e == IdentityError::InvalidCanonicalUsername,
{
    if record.name.len() == 0 {
        return Err(IdentityError::InvalidCanonicalUsername);
    }
    let PasswdRecord { name, uid, gid, dir, shell } = record;
    match string_from_bytes(name) {
        Some(username) => Ok(UnixIdentity { username, uid, gid, home: dir, shell }),
        None => Err(IdentityError::InvalidCanonicalUsername),
    }
}

/// What follows one passwd lookup.
#[derive(Debug, PartialEq, Eq)]
pub enum LookupStep {
    /// The lookup is over, with this result.
    Done(Result<UnixIdentity, IdentityError>),
    /// Look up again with a buffer of this size.
    Retry(usize),
}

/// The decision after one lookup with a buffer of `buffer_size` bytes: a
/// found record gives the identity, `ERANGE` a doubled buffer up to the
/// maximum, and at the maximum the buffer limit error.
pub fn lookup_step(result: LookupResult, buffer_size: usize) -> (r: LookupStep)
    requires
        buffer_size <= MAX_BUFFER_SIZE,
    ensures
        match result {
            LookupResult::Success(record) => r matches LookupStep::Done(res) && (res is Ok
                <==> spec_record_ok(record)) && (res matches Ok(id) ==> utf8_bytes(id.username@)
                == record.name@ && id.uid == record.uid && id.gid == record.gid && id.home@
                == record.dir@ && id.shell@ == record.shell@) && (res matches Err(e) ==> e
                == IdentityError::InvalidCanonicalUsername),
            LookupResult::NotFound => r == LookupStep::Done(
                Err::<UnixIdentity, IdentityError>(IdentityError::NotFound),
            ),
            LookupResult::Failure => r == LookupStep::Done(
                Err::<UnixIdentity, IdentityError>(IdentityError::LookupFailed),
            ),
            LookupResult::Range => if buffer_size >= MAX_BUFFER_SIZE {
                r == LookupStep::Done(
                    Err::<UnixIdentity, IdentityError>(IdentityError::BufferLimitExceeded),
                )
            } else {
                r == LookupStep::Retry(spec_next_buffer_size(buffer_size as nat) as usize)
            },
        },
{
    match result {
        LookupResult::Success(record) => LookupStep::Done(passwd_to_identity(record)),
        LookupResult::NotFound => LookupStep::Done(Err(IdentityError::NotFound)),
        LookupResult::Failure => LookupStep::Done(Err(IdentityError::LookupFailed)),
        LookupResult::Range => {
            if buffer_size >= MAX_BUFFER_SIZE {
                LookupStep::Done(Err(IdentityError::BufferLimitExceeded))
            } else {
                LookupStep::Retry(next_buffer_size(buffer_size))
            }
        },
    }
}

/// The buffer size the first lookup gets, from the lookup's own hint:
/// capped at the maximum, and at least one byte.
pub open spec fn spec_first_buffer_size(hint: usize) -> usize {
    if hint == 0 {
        1
    } else if hint < MAX_BUFFER_SIZE {
        hint
    } else {
        MAX_BUFFER_SIZE
    }
}

/// What a sequence of passwd answers leads to, the first given with a
/// buffer of `size` bytes: a record (valid or not), `NotFound` and a failure
/// end the lookup; `ERANGE` moves on to the next answer with a doubled
/// buffer, or ends it with `BufferLimitExceeded` at the maximum. `None`
/// where the answers run out first.
pub open spec fn spec_lookup_run(size: usize, answers: Seq<LookupResult>) -> Option<
    Result<PasswdRecord, IdentityError>,
>
    decreases answers.len(),
{
    if answers.len() == 0 {
        None
    } else {
        match answers[0] {
            LookupResult::Success(record) => Some(
                if spec_record_ok(record) {
                    Ok(record)
                } else {
                    Err(IdentityError::InvalidCanonicalUsername)
                },
            ),
            LookupResult::NotFound => Some(Err(IdentityError::NotFound)),
            LookupResult::Failure => Some(Err(IdentityError::LookupFailed)),
            LookupResult::Range => if size >= MAX_BUFFER_SIZE {
                Some(Err(IdentityError::BufferLimitExceeded))
            } else {
                spec_lookup_run(
                    spec_next_buffer_size(size as nat) as usize,
                    answers.subrange(1, answers.len() as int),
                )
            },
        }
    }
}

/// An identity is what a record gives.
pub open spec fn identity_from(id: UnixIdentity, record: PasswdRecord) -> bool {
    &&& utf8_bytes(id.username@) == record.name@
    &&& id.uid == record.uid
    &&& id.gid == record.gid
    &&& id.home@ == record.dir@
    &&& id.shell@ == record.shell@
}

/// A lookup's result is the end of a run.
pub open spec fn lookup_result_is(
    r: Result<UnixIdentity, IdentityError>,
    run: Option<Result<PasswdRecord, IdentityError>>,
) -> bool {
    match run {
        None => false,
        Some(Ok(record)) => r matches Ok(id) && identity_from(id, record),
        Some(Err(e)) => r == Err::<UnixIdentity, IdentityError>(e),
    }
}

/// A run of `ERANGE` answers that leads from a buffer of `from` bytes to
/// one of `to` bytes.
pub open spec fn spec_range_prefix(from: usize, answers: Seq<LookupResult>, to: usize) -> bool
    decreases answers.len(),
{
    if answers.len() == 0 {
        from == to
    } else {
        answers[0] is Range && from < MAX_BUFFER_SIZE && spec_range_prefix(
            spec_next_buffer_size(from as nat) as usize,
            answers.subrange(1, answers.len() as int),
            to,
        )
    }
}

proof fn lemma_range_prefix_run(from: usize, prefix: Seq<LookupResult>, to: usize, rest: Seq<LookupResult>)
    requires
        from <= MAX_BUFFER_SIZE,
        spec_range_prefix(from, prefix, to),
    ensures
        spec_lookup_run(from, prefix + rest) == spec_lookup_run(to, rest),
    decreases prefix.len(),
{
    if prefix.len() > 0 {
        let next = spec_next_buffer_size(from as nat) as usize;
        let tail = prefix.subrange(1, prefix.len() as int);
        lemma_range_prefix_run(next, tail, to, rest);
        assert((prefix + rest).subrange(1, (prefix + rest).len() as int) =~= tail + rest);
        assert((prefix + rest)[0] == prefix[0]);
    }
}

proof fn lemma_range_prefix_push(from: usize, prefix: Seq<LookupResult>, to: usize)
    requires
        spec_range_prefix(from, prefix, to),
        to < MAX_BUFFER_SIZE,
    ensures
        spec_range_prefix(
            from,
            prefix.push(LookupResult::Range),
            spec_next_buffer_size(to as nat) as usize,
        ),
    decreases prefix.len(),
{
    if prefix.len() > 0 {
        let next = spec_next_buffer_size(from as nat) as usize;
        let tail = prefix.subrange(1, prefix.len() as int);
        lemma_range_prefix_push(next, tail, to);
        assert(prefix.push(LookupResult::Range).subrange(1, prefix.len() + 1 as int) =~= tail.push(
            LookupResult::Range,
        ));
    } else {
        let one = prefix.push(LookupResult::Range);
        let next = spec_next_buffer_size(to as nat) as usize;
        assert(one.subrange(1, one.len() as int) =~= Seq::<LookupResult>::empty());
        assert(spec_range_prefix(next, Seq::<LookupResult>::empty(), next));
        assert(one[0] is Range);
    }
}

/// Resolves a user through a passwd lookup, growing the buffer while the
/// lookup reports `ERANGE`. A name holding NUL is refused before any lookup.
/// A zero initial size is raised to one byte, so that the growth ends.
/// Whatever the lookup answered, the result is the end of the run of those
/// answers, starting from the lookup's own size hint.
pub fn lookup_user_with<L: PasswdLookup>(username: &str, lookup: &L) -> (r: Result<
    UnixIdentity,
    IdentityError,
>)
    ensures
        utf8_bytes(username@).contains(0u8) ==> r == Err::<UnixIdentity, IdentityError>(
            IdentityError::InvalidUsername,
        ),
        !utf8_bytes(username@).contains(0u8) ==> exists|hint: usize, answers: Seq<LookupResult>|
            lookup_result_is(r, #[trigger] spec_lookup_run(spec_first_buffer_size(hint), answers)),
        r matches Ok(id) ==> utf8_bytes(id.username@).len() > 0 && vstd::utf8::valid_utf8(
            utf8_bytes(id.username@),
        ),
{
    let name = str_bytes(username);
    if has_byte(name, 0u8) {
        return Err(IdentityError::InvalidUsername);
    }
    let initial = lookup.initial_buffer_size();
    let mut buffer_size: usize = if initial < MAX_BUFFER_SIZE {
        initial
    } else {
        MAX_BUFFER_SIZE
    };
    if buffer_size == 0 {
        buffer_size = 1;
    }
    let ghost first = buffer_size;
    assert(first == spec_first_buffer_size(initial));
    let ghost mut seen: Seq<LookupResult> = Seq::empty();
    loop
        invariant
            1 <= buffer_size <= MAX_BUFFER_SIZE,
            name@ == utf8_bytes(username@),
            !name@.contains(0u8),
            first == spec_first_buffer_size(initial),
            first <= MAX_BUFFER_SIZE,
            spec_range_prefix(first, seen, buffer_size),
        decreases MAX_BUFFER_SIZE - buffer_size,
    {
        let answer = lookup.lookup(name, buffer_size);
        let ghost a = answer;
        let step = lookup_step(answer, buffer_size);
        proof {
            lemma_range_prefix_run(first, seen, buffer_size, seq![a]);
            let one = seq![a];
            assert(one.subrange(1, one.len() as int) =~= Seq::<LookupResult>::empty());
        }
        match step {
            LookupStep::Done(result) => {
                proof {
                    assert(lookup_result_is(result, spec_lookup_run(first, seen + seq![a])));
                }
                return result;
            },
            LookupStep::Retry(next) => {
                proof {
                    lemma_range_prefix_push(first, seen, buffer_size);
                    assert(seen + seq![a] =~= seen.push(LookupResult::Range));
                    seen = seen.push(LookupResult::Range);
                }
                buffer_size = next;
            },
        }
    }
}

/// Resolves identities through a passwd lookup.
pub struct NssUnixIdentityResolver<L> {
    pub lookup: L,
}

impl<L: PasswdLookup + Send + Sync> UnixIdentityResolver for NssUnixIdentityResolver<L> {
    fn resolve(&self, username: &str) -> (r: Result<UnixIdentity, IdentityError>)
        ensures
            utf8_bytes(username@).contains(0u8) ==> r == Err::<UnixIdentity, IdentityError>(
                IdentityError::InvalidUsername,
            ),
            r matches Ok(id) ==> utf8_bytes(id.username@).len() > 0 && vstd::utf8::valid_utf8(
                utf8_bytes(id.username@),
            ),
    {
        lookup_user_with(username, &self.lookup)
    }
}

// ---------------------------------------------------------------------------
// Supplementary groups
// ---------------------------------------------------------------------------

/// Capacity of the first group lookup.
pub const DEFAULT_GROUP_CAPACITY: usize = 16;

/// Most group lookups tried before giving up.
pub const MAX_GROUP_LOOKUP_ATTEMPTS: usize = 8;

/// Most supplementary groups accepted, whatever the system allows.
pub const HARD_MAX_SUPPLEMENTARY_GROUPS: usize = 65536;

#[derive(Debug, Clone, Copy, PartialEq, Eq, Structural)]
pub enum GroupLookupResult {
    Success,
    BufferTooSmall,
    Failure,
}

/// `getgrouplist` returns -1 where the buffer was too small and the group
/// count otherwise; any other negative value is a failure.
pub fn classify_getgrouplist_result(result: i32) -> (r: GroupLookupResult)
    ensures
        r == (if result == -1 {
            GroupLookupResult::BufferTooSmall
        } else if result >= 0 {
            GroupLookupResult::Success
        } else {
            GroupLookupResult::Failure
        }),
{
    if result == -1 {
        GroupLookupResult::BufferTooSmall
    } else if result >= 0 {
        GroupLookupResult::Success
    } else {
        GroupLookupResult::Failure
    }
}

/// What one group-list lookup reported: its outcome, the group count it
/// gave, and the buffer it filled.
#[derive(Debug, Clone, PartialEq, Eq)]
pub struct GroupListReply {
    pub result: GroupLookupResult,
    pub ngroups: i32,
    pub groups: Vec<u32>,
}

/// One `getgrouplist` call with a buffer of a given capacity.
pub trait GroupListLookup {
    /// `sysconf(_SC_NGROUPS_MAX)`.
    fn ngroups_max(&self) -> i64;

    /// Lists the groups of `username` (without its NUL), starting with the
    /// primary group, into a buffer of `capacity` entries.
    fn lookup(&self, username: &[u8], primary_gid: u32, capacity: usize) -> GroupListReply;
}

/// The supplementary group limit: the system's, where it gives a positive
/// one, but never above the hard maximum.
pub fn supplementary_group_limit(raw: i64) -> (r: usize)
    ensures
        r == (if raw > 0 && raw < HARD_MAX_SUPPLEMENTARY_GROUPS {
            raw as usize
        } else {
            HARD_MAX_SUPPLEMENTARY_GROUPS
        }),
{
    if raw > 0 && raw < HARD_MAX_SUPPLEMENTARY_GROUPS as i64 {
        raw as usize
    } else {
        HARD_MAX_SUPPLEMENTARY_GROUPS
    }
}

/// The capacity asked for after a shortage must exceed the one offered and
/// stay within the limit.
pub fn required_capacity(ngroups: i32, capacity: usize, raw_limit: usize) -> (r: Result<
    usize,
    GroupResolutionError,
>)
    ensures
        r == (if ngroups < 0 || ngroups <= capacity {
            Err::<usize, GroupResolutionError>(GroupResolutionError::LookupFailed)
        } else if ngroups > raw_limit {
            Err(GroupResolutionError::TooManyGroups)
        } else {
            Ok(ngroups as usize)
        }),
{
    if ngroups < 0 {
        return Err(GroupResolutionError::LookupFailed);
    }
    let required = ngroups as usize;
    if required <= capacity {
        return Err(GroupResolutionError::LookupFailed);
    }
    if required > raw_limit {
        return Err(GroupResolutionError::TooManyGroups);
    }
    Ok(required)
}

/// A reported group count must fit the buffer and the limit.
pub fn valid_count(ngroups: i32, capacity: usize, raw_limit: usize) -> (r: Result<
    usize,
    GroupResolutionError,
>)
    ensures
        r == (if ngroups < 0 || ngroups > capacity || ngroups > raw_limit {
            Err::<usize, GroupResolutionError>(GroupResolutionError::LookupFailed)
        } else {
            Ok(ngroups as usize)
        }),
{
    if ngroups < 0 {
        return Err(GroupResolutionError::LookupFailed);
    }
    let count = ngroups as usize;
    if count > capacity || count > raw_limit {
        return Err(GroupResolutionError::LookupFailed);
    }
    Ok(count)
}

pub open spec fn strictly_sorted(s: Seq<u32>) -> bool {
    forall|i: int, j: int| 0 <= i < j < s.len() ==> s[i] < s[j]
}

/// The supplementary groups a group list gives: its distinct groups other
/// than the primary group.
pub open spec fn supplementary_set(groups: Seq<u32>, primary_gid: u32) -> Set<u32> {
    groups.to_set().remove(primary_gid)
}

/// Inserts `x` into a strictly sorted vector unless it is already there.
pub fn insert_unique_sorted(v: &mut Vec<u32>, x: u32)
    requires
        strictly_sorted(old(v)@),
    ensures
        strictly_sorted(final(v)@),
        final(v)@.to_set() == old(v)@.to_set().insert(x),
{
    let mut i: usize = 0;
    while i < v.len() && v[i] < x
        invariant
            i <= v@.len(),
            v@ == old(v)@,
            forall|j: int| 0 <= j < i ==> v@[j] < x,
        decreases v.len() - i,
    {
        i += 1;
    }
    let ghost before = v@;
    proof {
        broadcast use vstd::seq_lib::seq_to_set_is_finite;
    }
    if i < v.len() && v[i] == x {
        assert(before.to_set().insert(x) =~= before.to_set()) by {
            broadcast use vstd::set::group_set_axioms;
            assert(before.contains(x));
        }
        return;
    }
    v.insert(i, x);
    proof {
        assert forall|a: int, b: int| 0 <= a < b < v@.len() implies v@[a] < v@[b] by {
            if a < i as int && b > i as int {
                assert(v@[a] == before[a] && v@[b] == before[b - 1]);
            } else if a == i as int && b > i as int {
                assert(v@[b] == before[b - 1]);
                assert(before[b - 1] >= x);
                assert(before[b - 1] != x || (b - 1 == i as int && false) || true);
                if b - 1 == i as int {
                } else {
                    assert(before[i as int] < before[b - 1]);
                    assert(before[i as int] >= x);
                }
            } else if a < i as int && b == i as int {
            } else if a > i as int {
                assert(v@[a] == before[a - 1] && v@[b] == before[b - 1]);
            }
        }
        assert forall|y: u32| v@.to_set().contains(y) <==> before.to_set().insert(x).contains(y) by {
            broadcast use vstd::set::group_set_axioms;
            if v@.contains(y) {
                let k = choose|k: int| 0 <= k < v@.len() && v@[k] == y;
                if k < i as int {
                    assert(before[k] == y);
                } else if k > i as int {
                    assert(before[k - 1] == y);
                }
            }
            if before.contains(y) {
                let k = choose|k: int| 0 <= k < before.len() && before[k] == y;
                if k < i as int {
                    assert(v@[k] == y);
                } else {
                    assert(v@[k + 1] == y);
                }
            }
            if y == x {
                assert(v@[i as int] == x);
            }
        }
        assert(v@.to_set() =~= before.to_set().insert(x));
    }
}

/// The distinct groups of a group list other than the primary group, in
/// ascending order.
pub fn sorted_supplementary(groups: &[u32], primary_gid: u32) -> (r: Vec<u32>)
    ensures
        strictly_sorted(r@),
        r@.to_set() == supplementary_set(groups@, primary_gid),
        r@.len() == supplementary_set(groups@, primary_gid).len(),
{
    let mut result: Vec<u32> = Vec::new();
    let mut k: usize = 0;
    proof {
        broadcast use vstd::seq_lib::seq_to_set_is_finite;
        broadcast use vstd::set::group_set_axioms;
        assert(groups@.subrange(0, 0).to_set().remove(primary_gid) =~= result@.to_set());
    }
    while k < groups.len()
        invariant
            k <= groups@.len(),
            strictly_sorted(result@),
            result@.to_set() == groups@.subrange(0, k as int).to_set().remove(primary_gid),
        decreases groups.len() - k,
    {
        let g = groups[k];
        proof {
            broadcast use vstd::seq_lib::seq_to_set_is_finite;
            broadcast use vstd::set::group_set_axioms;
            assert(groups@.subrange(0, k + 1) =~= groups@.subrange(0, k as int).push(g));
            groups@.subrange(0, k as int).lemma_push_to_set_commute(g);
        }
        if g != primary_gid {
            insert_unique_sorted(&mut result, g);
            proof {
                broadcast use vstd::set::group_set_axioms;
                assert(result@.to_set() =~= groups@.subrange(0, k + 1).to_set().remove(primary_gid));
            }
        } else {
            proof {
                broadcast use vstd::set::group_set_axioms;
                assert(result@.to_set() =~= groups@.subrange(0, k + 1).to_set().remove(primary_gid));
            }
        }
        k += 1;
    }
    assert(groups@.subrange(0, groups@.len() as int) =~= groups@);
    proof {
        assert(result@.no_duplicates());
        result@.unique_seq_to_set();
    }
    result
}

/// Two strictly ascending sequences with the same elements are the same
/// sequence.
pub proof fn lemma_sorted_same_set_equal(a: Seq<u32>, b: Seq<u32>)
    requires
        strictly_sorted(a),
        strictly_sorted(b),
        a.to_set() == b.to_set(),
    ensures
        a == b,
    decreases a.len(),
{
    broadcast use vstd::set::group_set_axioms;
    if a.len() == 0 {
        if b.len() > 0 {
            assert(b.to_set().contains(b[0]));
            assert(!a.contains(b[0]));
        }
        assert(a =~= b);
    } else {
        assert(a.to_set().contains(a[0]));
        if b.len() == 0 {
            assert(b.to_set().contains(a[0]));
            assert(false);
        }
        assert(b.to_set().contains(b[0]));
        assert(a.contains(b[0]));
        assert(b.contains(a[0]));
        let i = choose|i: int| 0 <= i < a.len() && a[i] == b[0];
        let j = choose|j: int| 0 <= j < b.len() && b[j] == a[0];
        assert(a[0] <= a[i]);
        assert(b[0] <= b[j]);
        assert(a[0] == b[0]);
        let ta = a.drop_first();
        let tb = b.drop_first();
        assert forall|x: u32| ta.to_set().contains(x) <==> tb.to_set().contains(x) by {
            if ta.contains(x) {
                let k = choose|k: int| 0 <= k < ta.len() && ta[k] == x;
                assert(a[k + 1] == x);
                assert(a.to_set().contains(x));
                assert(b.contains(x));
                let m = choose|m: int| 0 <= m < b.len() && b[m] == x;
                assert(a[0] < a[k + 1]);
                if m == 0 {
                    assert(false);
                }
                assert(tb[m - 1] == x);
            }
            if tb.contains(x) {
                let k = choose|k: int| 0 <= k < tb.len() && tb[k] == x;
                assert(b[k + 1] == x);
                assert(b.to_set().contains(x));
                assert(a.contains(x));
                let m = choose|m: int| 0 <= m < a.len() && a[m] == x;
                assert(b[0] < b[k + 1]);
                if m == 0 {
                    assert(false);
                }
                assert(ta[m - 1] == x);
            }
        }
        assert(ta.to_set() =~= tb.to_set());
        lemma_sorted_same_set_equal(ta, tb);
        assert(a =~= b) by {
            assert forall|k: int| 0 <= k < a.len() implies a[k] == b[k] by {
                if k > 0 {
                    assert(a[k] == ta[k - 1]);
                    assert(b[k] == tb[k - 1]);
                }
            }
        }
    }
}

/// The distinct supplementary groups of a group list, sorted, without the
/// primary group; refused where they exceed the limit.
pub fn normalize_groups(groups: &[u32], primary_gid: u32, supplementary_limit: usize) -> (r: Result<
    Vec<u32>,
    GroupResolutionError,
>)
    ensures
        match r {
            Ok(v) => strictly_sorted(v@) && v@.to_set() == supplementary_set(groups@, primary_gid)
                && v@.len() <= supplementary_limit,
            Err(e) => e == GroupResolutionError::TooManyGroups && supplementary_set(
                groups@,
                primary_gid,
            ).len() > supplementary_limit,
        },
{
    let result = sorted_supplementary(groups, primary_gid);
    if result.len() > supplementary_limit {
        return Err(GroupResolutionError::TooManyGroups);
    }
    Ok(result)
}

/// The capacity of the first group lookup, below the raw limit.
pub open spec fn spec_first_group_capacity(limit: usize) -> nat {
    if DEFAULT_GROUP_CAPACITY < limit + 1 {
        DEFAULT_GROUP_CAPACITY as nat
    } else {
        (limit + 1) as nat
    }
}

/// What a successful lookup into a buffer of `capacity` entries gives: the
/// count must fit the buffer, the raw limit and the groups returned; then
/// the distinct groups other than the primary one, unless more than `limit`.
pub open spec fn spec_group_success(
    primary_gid: u32,
    limit: usize,
    capacity: nat,
    reply: GroupListReply,
) -> Result<Set<u32>, GroupResolutionError> {
    if reply.ngroups < 0 || reply.ngroups > capacity || reply.ngroups > limit + 1 {
        Err(GroupResolutionError::LookupFailed)
    } else if reply.ngroups > reply.groups@.len() {
        Err(GroupResolutionError::LookupFailed)
    } else if supplementary_set(reply.groups@.subrange(0, reply.ngroups as int), primary_gid).len()
        > limit {
        Err(GroupResolutionError::TooManyGroups)
    } else {
        Ok(supplementary_set(reply.groups@.subrange(0, reply.ngroups as int), primary_gid))
    }
}

/// The groups a successful group-list reply gives: the reported count must
/// fit the buffer given, the raw limit and the entries returned; then the
/// distinct entries among the first `ngroups` other than the primary group,
/// sorted, unless more than `limit`.
pub fn group_success(primary_gid: u32, limit: usize, capacity: usize, reply: &GroupListReply) -> (r:
    Result<Vec<u32>, GroupResolutionError>)
    requires
        limit <= HARD_MAX_SUPPLEMENTARY_GROUPS,
    ensures
        groups_result_is(r, Some(spec_group_success(primary_gid, limit, capacity as nat, *reply))),
        r matches Ok(v) ==> strictly_sorted(v@) && !v@.contains(primary_gid) && v@.len() <= limit,
{
    let count = match valid_count(reply.ngroups, capacity, limit + 1) {
        Ok(c) => c,
        Err(e) => {
            return Err(e);
        },
    };
    if count > reply.groups.len() {
        return Err(GroupResolutionError::LookupFailed);
    }
    let listed = &reply.groups.as_slice()[0..count];
    assert(listed@ =~= reply.groups@.subrange(0, reply.ngroups as int));
    let r = normalize_groups(listed, primary_gid, limit);
    proof {
        broadcast use vstd::seq_lib::seq_to_set_is_finite;
        broadcast use vstd::set::group_set_axioms;

        if r is Ok {
            let v = r->Ok_0;
            if v@.contains(primary_gid) {
                assert(v@.to_set().contains(primary_gid));
            }
            v@.lemma_cardinality_of_set();
        }
    }
    r
}

/// A successful group-list reply gives exactly the entries among its first
/// `ngroups` other than the primary group: no entry of the buffer beyond
/// the reported count, and never the primary group.
pub proof fn lemma_group_success_lists_reported_entries(
    primary_gid: u32,
    limit: usize,
    capacity: nat,
    reply: GroupListReply,
)
    ensures
        spec_group_success(primary_gid, limit, capacity, reply) matches Ok(groups) ==> forall|g: u32|
            #[trigger] groups.contains(g) <==> (g != primary_gid && exists|i: int|
                0 <= i < reply.ngroups && reply.groups@[i] == g),
{
    broadcast use vstd::set::group_set_axioms;

    if spec_group_success(primary_gid, limit, capacity, reply) is Ok {
        let listed = reply.groups@.subrange(0, reply.ngroups as int);
        assert forall|g: u32| #[trigger] supplementary_set(listed, primary_gid).contains(g) <==> (g
            != primary_gid && exists|i: int| 0 <= i < reply.ngroups && reply.groups@[i] == g) by {
            if g != primary_gid && exists|i: int| 0 <= i < reply.ngroups && reply.groups@[i] == g {
                let i = choose|i: int| 0 <= i < reply.ngroups && reply.groups@[i] == g;
                assert(listed[i] == g);
            }
            if listed.contains(g) {
                let i = choose|i: int| 0 <= i < listed.len() && listed[i] == g;
                assert(reply.groups@[i] == g);
            }
        }
    }
}

/// What a sequence of group-list replies leads to, the first into a buffer
/// of `capacity` entries with `left` attempts left: a success ends it, a
/// failure is `LookupFailed`, and a shortage moves on with the capacity the
/// lookup asked for, which must exceed the one given and stay within the
/// raw limit; with no attempt left the lookup failed. `None` where the
/// replies run out first.
pub open spec fn spec_groups_run(
    primary_gid: u32,
    limit: usize,
    capacity: nat,
    left: nat,
    replies: Seq<GroupListReply>,
) -> Option<Result<Set<u32>, GroupResolutionError>>
    decreases replies.len(),
{
    if left == 0 {
        Some(Err(GroupResolutionError::LookupFailed))
    } else if replies.len() == 0 {
        None
    } else {
        let reply = replies[0];
        match reply.result {
            GroupLookupResult::Success => Some(spec_group_success(primary_gid, limit, capacity, reply)),
            GroupLookupResult::Failure => Some(Err(GroupResolutionError::LookupFailed)),
            GroupLookupResult::BufferTooSmall => if reply.ngroups < 0 || reply.ngroups <= capacity {
                Some(Err(GroupResolutionError::LookupFailed))
            } else if reply.ngroups > limit + 1 {
                Some(Err(GroupResolutionError::TooManyGroups))
            } else {
                spec_groups_run(
                    primary_gid,
                    limit,
                    reply.ngroups as nat,
                    (left - 1) as nat,
                    replies.subrange(1, replies.len() as int),
                )
            },
        }
    }
}

/// A run of shortages that leads from a capacity of `from` to one of `to`.
pub open spec fn spec_shortage_prefix(limit: usize, from: nat, replies: Seq<GroupListReply>, to: nat) -> bool
    decreases replies.len(),
{
    if replies.len() == 0 {
        from == to
    } else {
        let reply = replies[0];
        &&& reply.result is BufferTooSmall
        &&& reply.ngroups >= 0
        &&& reply.ngroups > from
        &&& reply.ngroups <= limit + 1
        &&& spec_shortage_prefix(limit, reply.ngroups as nat, replies.subrange(1, replies.len() as int), to)
    }
}

proof fn lemma_shortage_prefix_run(
    primary_gid: u32,
    limit: usize,
    from: nat,
    left: nat,
    prefix: Seq<GroupListReply>,
    to: nat,
    rest: Seq<GroupListReply>,
)
    requires
        spec_shortage_prefix(limit, from, prefix, to),
        prefix.len() <= left,
    ensures
        spec_groups_run(primary_gid, limit, from, left, prefix + rest) == spec_groups_run(
            primary_gid,
            limit,
            to,
            (left - prefix.len()) as nat,
            rest,
        ),
    decreases prefix.len(),
{
    if prefix.len() > 0 {
        let tail = prefix.subrange(1, prefix.len() as int);
        lemma_shortage_prefix_run(primary_gid, limit, prefix[0].ngroups as nat, (left - 1) as nat, tail, to, rest);
        assert((prefix + rest).subrange(1, (prefix + rest).len() as int) =~= tail + rest);
        assert((prefix + rest)[0] == prefix[0]);
    }
}

proof fn lemma_shortage_prefix_push(limit: usize, from: nat, prefix: Seq<GroupListReply>, to: nat, reply: GroupListReply)
    requires
        spec_shortage_prefix(limit, from, prefix, to),
        reply.result is BufferTooSmall,
        reply.ngroups >= 0,
        reply.ngroups > to,
        reply.ngroups <= limit + 1,
    ensures
        spec_shortage_prefix(limit, from, prefix.push(reply), reply.ngroups as nat),
    decreases prefix.len(),
{
    let longer = prefix.push(reply);
    if prefix.len() > 0 {
        let tail = prefix.subrange(1, prefix.len() as int);
        lemma_shortage_prefix_push(limit, prefix[0].ngroups as nat, tail, to, reply);
        assert(longer.subrange(1, longer.len() as int) =~= tail.push(reply));
        assert(longer[0] == prefix[0]);
    } else {
        let n = reply.ngroups as nat;
        assert(longer.subrange(1, longer.len() as int) =~= Seq::<GroupListReply>::empty());
        assert(spec_shortage_prefix(limit, n, Seq::<GroupListReply>::empty(), n));
        assert(longer[0] == reply);
    }
}

/// A group resolution's result is the end of a run.
pub open spec fn groups_result_is(
    r: Result<Vec<u32>, GroupResolutionError>,
    run: Option<Result<Set<u32>, GroupResolutionError>>,
) -> bool {
    match run {
        None => false,
        Some(Ok(set)) => r matches Ok(v) && strictly_sorted(v@) && v@.to_set() == set,
        Some(Err(e)) => r == Err::<Vec<u32>, GroupResolutionError>(e),
    }
}

/// Resolves the supplementary groups of a user through a group-list
/// lookup, growing the buffer as the lookup asks, for at most eight
/// attempts. A name holding NUL is refused before any lookup. Whatever the
/// lookup answered, the result is the end of the run of its replies,
/// starting from the default capacity under the system's limit.
pub fn resolve_groups_with<L: GroupListLookup>(identity: &UnixIdentity, lookup: &L) -> (r: Result<
    Vec<u32>,
    GroupResolutionError,
>)
    ensures
        utf8_bytes(identity.username@).contains(0u8) ==> r == Err::<
            Vec<u32>,
            GroupResolutionError,
        >(GroupResolutionError::InvalidUsername),
        !utf8_bytes(identity.username@).contains(0u8) ==> exists|
            limit: usize,
            replies: Seq<GroupListReply>,
        |
            limit <= HARD_MAX_SUPPLEMENTARY_GROUPS && groups_result_is(
                r,
                #[trigger] spec_groups_run(
                    identity.gid,
                    limit,
                    spec_first_group_capacity(limit),
                    MAX_GROUP_LOOKUP_ATTEMPTS as nat,
                    replies,
                ),
            ),
        r matches Ok(v) ==> strictly_sorted(v@) && !v@.contains(identity.gid) && v@.len()
            <= HARD_MAX_SUPPLEMENTARY_GROUPS,
{
    let name = str_bytes(identity.username.as_str());
    if has_byte(name, 0u8) {
        return Err(GroupResolutionError::InvalidUsername);
    }
    let supplementary_limit = supplementary_group_limit(lookup.ngroups_max());
    let raw_limit = supplementary_limit + 1;
    let mut capacity: usize = if DEFAULT_GROUP_CAPACITY < raw_limit {
        DEFAULT_GROUP_CAPACITY
    } else {
        raw_limit
    };
    let ghost first = capacity as nat;
    let ghost mut seen: Seq<GroupListReply> = Seq::empty();
    let mut attempt: usize = 0;
    while attempt < MAX_GROUP_LOOKUP_ATTEMPTS
        invariant
            1 <= capacity <= raw_limit,
            raw_limit == supplementary_limit + 1,
            supplementary_limit <= HARD_MAX_SUPPLEMENTARY_GROUPS,
            name@ == utf8_bytes(identity.username@),
            !name@.contains(0u8),
            attempt <= MAX_GROUP_LOOKUP_ATTEMPTS,
            first == spec_first_group_capacity(supplementary_limit),
            seen.len() == attempt,
            spec_shortage_prefix(supplementary_limit, first, seen, capacity as nat),
        decreases MAX_GROUP_LOOKUP_ATTEMPTS - attempt,
    {
        let reply = lookup.lookup(name, identity.gid, capacity);
        let ghost rep = reply;
        proof {
            lemma_shortage_prefix_run(
                identity.gid,
                supplementary_limit,
                first,
                MAX_GROUP_LOOKUP_ATTEMPTS as nat,
                seen,
                capacity as nat,
                seq![rep],
            );
            let one = seq![rep];
            assert(one.subrange(1, one.len() as int) =~= Seq::<GroupListReply>::empty());
            assert(one[0] == rep);
        }
        let ghost run = spec_groups_run(
            identity.gid,
            supplementary_limit,
            first,
            MAX_GROUP_LOOKUP_ATTEMPTS as nat,
            seen + seq![rep],
        );
        match reply.result {
            GroupLookupResult::Success => {
                let r = group_success(identity.gid, supplementary_limit, capacity, &reply);
                proof {
                    assert(run == Some(
                        spec_group_success(identity.gid, supplementary_limit, capacity as nat, rep),
                    ));
                }
                return r;
            },
            GroupLookupResult::BufferTooSmall => {
                let ghost before = capacity as nat;
                capacity = match required_capacity(reply.ngroups, capacity, raw_limit) {
                    Ok(c) => c,
                    Err(e) => {
                        assert(groups_result_is(Err(e), run));
                        return Err(e);
                    },
                };
                proof {
                    lemma_shortage_prefix_push(supplementary_limit, first, seen, before, rep);
                }
            },
            GroupLookupResult::Failure => {
                assert(groups_result_is(Err(GroupResolutionError::LookupFailed), run));
                return Err(GroupResolutionError::LookupFailed);
            },
        }
        proof {
            seen = seen.push(rep);
        }
        attempt += 1;
    }
    proof {
        lemma_shortage_prefix_run(
            identity.gid,
            supplementary_limit,
            first,
            MAX_GROUP_LOOKUP_ATTEMPTS as nat,
            seen,
            capacity as nat,
            Seq::empty(),
        );
        assert(seen + Seq::<GroupListReply>::empty() =~= seen);
        assert(groups_result_is(
            Err(GroupResolutionError::LookupFailed),
            spec_groups_run(identity.gid, supplementary_limit, first, MAX_GROUP_LOOKUP_ATTEMPTS as nat, seen),
        ));
    }
    Err(GroupResolutionError::LookupFailed)
}

/// Resolves supplementary groups through a group-list lookup.
pub struct NssSupplementaryGroupsResolver<L> {
    pub lookup: L,
}

impl<L: GroupListLookup + Send + Sync> SupplementaryGroupsResolver for NssSupplementaryGroupsResolver<
    L,
> {
    fn resolve(&self, identity: &UnixIdentity) -> (r: Result<Vec<u32>, GroupResolutionError>)
        ensures
            utf8_bytes(identity.username@).contains(0u8) ==> r == Err::<
                Vec<u32>,
                GroupResolutionError,
            >(GroupResolutionError::InvalidUsername),
            r matches Ok(v) ==> strictly_sorted(v@) && !v@.contains(identity.gid) && v@.len()
                <= HARD_MAX_SUPPLEMENTARY_GROUPS,
    {
        resolve_groups_with(identity, &self.lookup)
    }
}

} // verus!
