//! The isolation a session child must show after its credential drop: no
//! active capability, no dangerous secure bit, and only the expected file
//! descriptors open.
use vstd::prelude::*;

use crate::text::{parse_unsigned, spec_parse_unsigned, str_bytes, str_trim, trim_str, utf8_bytes};

verus! {

/// Highest capability number the checks accept.
pub const HARD_MAX_CAPABILITY_ID: u32 = 63;

/// `SECBIT_NOROOT` and `SECBIT_NO_SETUID_FIXUP` (bits 0 and 2).
pub const DANGEROUS_SECUREBITS_MASK: u32 = 5;

/// The capability sets of a process, each as its capability numbers.
#[derive(Debug, Clone, PartialEq, Eq)]
pub struct CapabilityState {
    pub effective: Vec<u32>,
    pub permitted: Vec<u32>,
    pub inheritable: Vec<u32>,
    pub ambient: Vec<u32>,
    pub bounding: Vec<u32>,
    pub cap_last_cap: u32,
}

/// What an audit after the credential drop found.
#[derive(Debug, Clone, PartialEq, Eq)]
pub struct PostDropIsolationProof {
    pub capabilities: CapabilityState,
    pub securebits: u32,
    pub no_new_privs: bool,
    pub open_fds: Vec<i32>,
}

#[derive(Debug, Clone, Copy, PartialEq, Eq, Structural)]
pub enum IsolationPolicyError {
    ActiveCapabilitiesPresent,
    DangerousSecurebits,
    UnexpectedFileDescriptors,
    InvalidCapabilityStructure,
    InvalidFdStructure,
}

/// A capability set is strictly ascending and goes no higher than `last`.
pub open spec fn spec_valid_capabilities(values: Seq<u32>, last: u32) -> bool {
    &&& forall|i: int, j: int| 0 <= i < j < values.len() ==> values[i] < values[j]
    &&& forall|i: int| 0 <= i < values.len() ==> values[i] <= last
}

/// A list of descriptors is strictly ascending and holds no negative one.
pub open spec fn spec_valid_fds(values: Seq<i32>) -> bool {
    &&& forall|i: int, j: int| 0 <= i < j < values.len() ==> values[i] < values[j]
    &&& forall|i: int| 0 <= i < values.len() ==> values[i] >= 0
}

pub fn valid_capabilities(values: &[u32], last: u32) -> (r: bool)
    ensures
        r == spec_valid_capabilities(values@, last),
{
    let mut i: usize = 0;
    while i < values.len()
        invariant
            i <= values@.len(),
            forall|a: int, b: int| 0 <= a < b < i ==> values@[a] < values@[b],
            forall|a: int| 0 <= a < i ==> values@[a] <= last,
        decreases values.len() - i,
    {
        if values[i] > last {
            return false;
        }
        if i > 0 && values[i - 1] >= values[i] {
            return false;
        }
        i += 1;
    }
    true
}

pub fn valid_fds(values: &[i32]) -> (r: bool)
    ensures
        r == spec_valid_fds(values@),
{
    let mut i: usize = 0;
    while i < values.len()
        invariant
            i <= values@.len(),
            forall|a: int, b: int| 0 <= a < b < i ==> values@[a] < values@[b],
            forall|a: int| 0 <= a < i ==> values@[a] >= 0,
        decreases values.len() - i,
    {
        if values[i] < 0 {
            return false;
        }
        if i > 0 && values[i - 1] >= values[i] {
            return false;
        }
        i += 1;
    }
    true
}

/// The descriptors that may stay open: standard input, output and error,
/// and the allowed ones.
pub open spec fn expected_fds(allowed: Seq<i32>) -> Set<i32> {
    set![0i32, 1i32, 2i32].union(allowed.to_set())
}

/// The decision on an isolation proof, in the order the checks are made.
pub open spec fn spec_isolation_verdict(proof: PostDropIsolationProof, allowed: Seq<i32>) -> Result<
    (),
    IsolationPolicyError,
> {
    let caps = proof.capabilities;
    if caps.cap_last_cap > HARD_MAX_CAPABILITY_ID || !spec_valid_capabilities(
        caps.effective@,
        caps.cap_last_cap,
    ) || !spec_valid_capabilities(caps.permitted@, caps.cap_last_cap) || !spec_valid_capabilities(
        caps.inheritable@,
        caps.cap_last_cap,
    ) || !spec_valid_capabilities(caps.ambient@, caps.cap_last_cap) || !spec_valid_capabilities(
        caps.bounding@,
        caps.cap_last_cap,
    ) {
        Err(IsolationPolicyError::InvalidCapabilityStructure)
    } else if !spec_valid_fds(proof.open_fds@) {
        Err(IsolationPolicyError::InvalidFdStructure)
    } else if caps.effective@.len() > 0 || caps.permitted@.len() > 0 || caps.inheritable@.len() > 0
        || caps.ambient@.len() > 0 {
        Err(IsolationPolicyError::ActiveCapabilitiesPresent)
    } else if proof.securebits & DANGEROUS_SECUREBITS_MASK != 0 {
        Err(IsolationPolicyError::DangerousSecurebits)
    } else if proof.open_fds@.to_set() != expected_fds(allowed) {
        Err(IsolationPolicyError::UnexpectedFileDescriptors)
    } else {
        Ok(())
    }
}

/// A proof the policy accepts shows no effective, permitted, inheritable or
/// ambient capability, no dangerous secure bit, and exactly the standard
/// and allowed descriptors open.
pub proof fn lemma_accepted_proof_is_isolated(proof: PostDropIsolationProof, allowed: Seq<i32>)
    requires
        spec_isolation_verdict(proof, allowed) is Ok,
    ensures
        proof.capabilities.effective@.len() == 0,
        proof.capabilities.permitted@.len() == 0,
        proof.capabilities.inheritable@.len() == 0,
        proof.capabilities.ambient@.len() == 0,
        proof.securebits & DANGEROUS_SECUREBITS_MASK == 0,
        proof.capabilities.cap_last_cap <= HARD_MAX_CAPABILITY_ID,
        proof.open_fds@.to_set() == expected_fds(allowed),
        spec_valid_fds(proof.open_fds@),
{
}

/// Whether `values` holds `fd`.
fn holds_fd(values: &[i32], fd: i32) -> (r: bool)
    ensures
        r == values@.contains(fd),
{
    let mut i: usize = 0;
    while i < values.len()
        invariant
            i <= values@.len(),
            forall|j: int| 0 <= j < i ==> values@[j] != fd,
        decreases values.len() - i,
    {
        if values[i] == fd {
            return true;
        }
        i += 1;
    }
    false
}

/// Whether the open descriptors are exactly the expected ones.
fn fds_as_expected(open: &[i32], allowed: &[i32]) -> (r: bool)
    ensures
        r == (open@.to_set() == expected_fds(allowed@)),
{
    broadcast use vstd::set::group_set_axioms;

    let mut i: usize = 0;
    while i < open.len()
        invariant
            i <= open@.len(),
            forall|j: int| 0 <= j < i ==> expected_fds(allowed@).contains(#[trigger] open@[j]),
        decreases open.len() - i,
    {
        let fd = open[i];
        if !(0 <= fd && fd <= 2) && !holds_fd(allowed, fd) {
            proof {
                assert(open@.to_set().contains(fd));
                assert(!expected_fds(allowed@).contains(fd));
            }
            return false;
        }
        proof {
            assert(allowed@.contains(fd) ==> allowed@.to_set().contains(fd));
        }
        i += 1;
    }
    let mut k: i32 = 0;
    while k < 3
        invariant
            0 <= k <= 3,
            forall|j: int| 0 <= j < open@.len() ==> expected_fds(allowed@).contains(#[trigger] open@[j]),
            forall|f: i32| 0 <= f < k ==> open@.contains(f),
        decreases 3 - k,
    {
        if !holds_fd(open, k) {
            proof {
                assert(expected_fds(allowed@).contains(k));
                assert(!open@.to_set().contains(k));
            }
            return false;
        }
        k += 1;
    }
    let mut a: usize = 0;
    while a < allowed.len()
        invariant
            a <= allowed@.len(),
            forall|j: int| 0 <= j < open@.len() ==> expected_fds(allowed@).contains(#[trigger] open@[j]),
            forall|f: i32| 0 <= f < 3 ==> open@.contains(f),
            forall|j: int| 0 <= j < a ==> open@.contains(#[trigger] allowed@[j]),
        decreases allowed.len() - a,
    {
        let fd = allowed[a];
        if !holds_fd(open, fd) {
            proof {
                assert(allowed@.to_set().contains(fd));
                assert(expected_fds(allowed@).contains(fd));
                assert(!open@.to_set().contains(fd));
            }
            return false;
        }
        a += 1;
    }
    proof {
        assert forall|f: i32| open@.to_set().contains(f) <==> expected_fds(allowed@).contains(f) by {
            if open@.contains(f) {
                let j = choose|j: int| 0 <= j < open@.len() && open@[j] == f;
                assert(expected_fds(allowed@).contains(open@[j]));
            }
            if expected_fds(allowed@).contains(f) {
                if !(0 <= f < 3) {
                    assert(allowed@.contains(f));
                    let j = choose|j: int| 0 <= j < allowed@.len() && allowed@[j] == f;
                    assert(open@.contains(allowed@[j]));
                }
            }
        }
        assert(open@.to_set() =~= expected_fds(allowed@));
    }
    true
}

/// Checks an isolation proof where only standard input, output and error
/// may be open.
pub fn validate_isolation_proof(proof: &PostDropIsolationProof) -> (r: Result<
    (),
    IsolationPolicyError,
>)
    ensures
        r == spec_isolation_verdict(*proof, Seq::<i32>::empty()),
{
    let none: Vec<i32> = Vec::new();
    validate_isolation_proof_with_allowed_fds(proof, none.as_slice())
}

/// Checks an isolation proof: every capability set well formed and within
/// `cap_last_cap` (at most 63), the descriptors strictly ascending and not
/// negative, no effective, permitted, inheritable or ambient capability, no
/// dangerous secure bit, and open exactly 0, 1, 2 and the allowed
/// descriptors. The bounding set and `no_new_privs` are evidence only.
pub fn validate_isolation_proof_with_allowed_fds(
    proof: &PostDropIsolationProof,
    allowed_fds: &[i32],
) -> (r: Result<(), IsolationPolicyError>)
    ensures
        r == spec_isolation_verdict(*proof, allowed_fds@),
{
    let caps = &proof.capabilities;
    let last = caps.cap_last_cap;
    if last > HARD_MAX_CAPABILITY_ID || !valid_capabilities(caps.effective.as_slice(), last)
        || !valid_capabilities(caps.permitted.as_slice(), last) || !valid_capabilities(
        caps.inheritable.as_slice(),
        last,
    ) || !valid_capabilities(caps.ambient.as_slice(), last) || !valid_capabilities(
        caps.bounding.as_slice(),
        last,
    ) {
        return Err(IsolationPolicyError::InvalidCapabilityStructure);
    }
    if !valid_fds(proof.open_fds.as_slice()) {
        return Err(IsolationPolicyError::InvalidFdStructure);
    }
    if caps.effective.len() > 0 || caps.permitted.len() > 0 || caps.inheritable.len() > 0
        || caps.ambient.len() > 0 {
        return Err(IsolationPolicyError::ActiveCapabilitiesPresent);
    }
    if proof.securebits & DANGEROUS_SECUREBITS_MASK != 0 {
        return Err(IsolationPolicyError::DangerousSecurebits);
    }
    if !fds_as_expected(proof.open_fds.as_slice(), allowed_fds) {
        return Err(IsolationPolicyError::UnexpectedFileDescriptors);
    }
    Ok(())
}

/// Capability `cap` is set in the capability words and is no higher than
/// `last`: bit `cap % 32` of word `cap / 32`.
pub open spec fn cap_bit_set(words: Seq<u32>, last: u32, cap: int) -> bool {
    &&& 0 <= cap <= last
    &&& cap < 32 * words.len()
    &&& words[cap / 32] & (1u32 << ((cap % 32) as u32)) != 0
}

proof fn lemma_word_bit(word: int, bit: int)
    requires
        0 <= word,
        0 <= bit < 32,
    ensures
        (32 * word + bit) / 32 == word,
        (32 * word + bit) % 32 == bit,
{
    assert((32 * word + bit) / 32 == word) by (nonlinear_arith)
        requires
            0 <= word,
            0 <= bit < 32,
    ;
    assert((32 * word + bit) % 32 == bit) by (nonlinear_arith)
        requires
            0 <= word,
            0 <= bit < 32,
    ;
}

/// The capability numbers set in the capability words, ascending, up to
/// `last`.
pub fn bits(words: &[u32], last: u32) -> (r: Vec<u32>)
    requires
        words@.len() <= 0x800_0000,
    ensures
        forall|i: int, j: int| 0 <= i < j < r@.len() ==> r@[i] < r@[j],
        forall|cap: int| 0 <= cap <= u32::MAX ==> (r@.contains(cap as u32) <==> cap_bit_set(
            words@,
            last,
            cap,
        )),
{
    let mut result: Vec<u32> = Vec::new();
    let mut word: usize = 0;
    while word < words.len()
        invariant
            word <= words@.len(),
            words@.len() <= 0x800_0000,
            forall|i: int, j: int| 0 <= i < j < result@.len() ==> result@[i] < result@[j],
            forall|i: int| 0 <= i < result@.len() ==> result@[i] < 32 * word,
            forall|cap: int|
                0 <= cap < 32 * word ==> (result@.contains(cap as u32) <==> cap_bit_set(
                    words@,
                    last,
                    cap,
                )),
        decreases words.len() - word,
    {
        let value = words[word];
        let mut bit: u32 = 0;
        while bit < 32
            invariant
                word < words@.len(),
                words@.len() <= 0x800_0000,
                value == words@[word as int],
                bit <= 32,
                forall|i: int, j: int| 0 <= i < j < result@.len() ==> result@[i] < result@[j],
                forall|i: int| 0 <= i < result@.len() ==> result@[i] < 32 * word + bit,
                forall|cap: int|
                    0 <= cap < 32 * word + bit ==> (result@.contains(cap as u32) <==> cap_bit_set(
                        words@,
                        last,
                        cap,
                    )),
            decreases 32 - bit,
        {
            let cap: u32 = (word as u32) * 32 + bit;
            proof {
                lemma_word_bit(word as int, bit as int);
            }
            let ghost before = result@;
            if cap <= last && value & (1u32 << bit) != 0 {
                result.push(cap);
            }
            proof {
                assert forall|c: int|
                    0 <= c < 32 * word + bit + 1 implies (result@.contains(c as u32) <==> cap_bit_set(
                    words@,
                    last,
                    c,
                )) by {
                    if c < 32 * word + bit {
                        if result@.contains(c as u32) && !before.contains(c as u32) {
                            assert(c as u32 == cap);
                        }
                        if before.contains(c as u32) {
                            let k = choose|k: int| 0 <= k < before.len() && before[k] == c as u32;
                            assert(result@[k] == c as u32);
                        }
                    } else {
                        if result@.contains(c as u32) && !(cap <= last && value & (1u32 << bit)
                            != 0) {
                            let k = choose|k: int|
                                0 <= k < result@.len() && result@[k] == c as u32;
                            assert(result@[k] < 32 * word + bit);
                        }
                        if before.contains(c as u32) {
                            let k = choose|k: int| 0 <= k < before.len() && before[k] == c as u32;
                            assert(before[k] < 32 * word + bit);
                        }
                        if cap <= last && value & (1u32 << bit) != 0 {
                            assert(result@[result@.len() - 1] == cap);
                        }
                    }
                }
            }
            bit += 1;
        }
        word += 1;
    }
    result
}

/// The descriptors to close when sanitizing: those from 3 up that are not
/// allowed, in the order listed.
pub open spec fn spec_fds_to_close(candidates: Seq<i32>, allowed: Seq<i32>) -> Seq<i32> {
    candidates.filter(|fd: i32| fd >= 3 && !allowed.contains(fd))
}

pub fn fds_to_close(candidates: &[i32], allowed: &[i32]) -> (r: Vec<i32>)
    ensures
        r@ == spec_fds_to_close(candidates@, allowed@),
{
    let mut result: Vec<i32> = Vec::new();
    let mut i: usize = 0;
    while i < candidates.len()
        invariant
            i <= candidates@.len(),
            result@ == spec_fds_to_close(candidates@.subrange(0, i as int), allowed@),
        decreases candidates.len() - i,
    {
        let fd = candidates[i];
        proof {
            assert(candidates@.subrange(0, i + 1).drop_last() =~= candidates@.subrange(0, i as int));
            reveal(Seq::filter);
        }
        if fd >= 3 && !holds_fd(allowed, fd) {
            result.push(fd);
        }
        i += 1;
    }
    assert(candidates@.subrange(0, candidates@.len() as int) =~= candidates@);
    result
}

/// Inserts `fd` into a strictly ascending vector unless it is already there.
fn insert_fd(v: &mut Vec<i32>, fd: i32)
    requires
        forall|i: int, j: int| 0 <= i < j < old(v)@.len() ==> old(v)@[i] < old(v)@[j],
    ensures
        forall|i: int, j: int| 0 <= i < j < final(v)@.len() ==> final(v)@[i] < final(v)@[j],
        final(v)@.to_set() == old(v)@.to_set().insert(fd),
{
    broadcast use vstd::set::group_set_axioms;

    let mut i: usize = 0;
    while i < v.len() && v[i] < fd
        invariant
            i <= v@.len(),
            v@ == old(v)@,
            forall|j: int| 0 <= j < i ==> v@[j] < fd,
        decreases v.len() - i,
    {
        i += 1;
    }
    let ghost before = v@;
    if i < v.len() && v[i] == fd {
        assert(before.to_set().insert(fd) =~= before.to_set()) by {
            assert(before.contains(fd));
        }
        return;
    }
    v.insert(i, fd);
    proof {
        assert forall|a: int, b: int| 0 <= a < b < v@.len() implies v@[a] < v@[b] by {
            if a < i as int && b > i as int {
                assert(v@[a] == before[a] && v@[b] == before[b - 1]);
            } else if a == i as int && b > i as int {
                assert(v@[b] == before[b - 1]);
                if b - 1 > i as int {
                    assert(before[i as int] < before[b - 1]);
                }
            } else if a > i as int {
                assert(v@[a] == before[a - 1] && v@[b] == before[b - 1]);
            }
        }
        assert forall|y: i32| v@.to_set().contains(y) <==> before.to_set().insert(fd).contains(y) by {
            if v@.contains(y) {
                let k = choose|k: int| 0 <= k < v@.len() && v@[k] == y;
                if k < i as int {
                    assert(before[k] == y);
                } else if k > i as int {
                    assert(before[k - 1] == y);
                }
            }
            if before.contains(y) {
                let k = choose|k: int| 0 <= k < before.len() && before[k] == y;
                if k < i as int {
                    assert(v@[k] == y);
                } else {
                    assert(v@[k + 1] == y);
                }
            }
            if y == fd {
                assert(v@[i as int] == fd);
            }
        }
        assert(v@.to_set() =~= before.to_set().insert(fd));
    }
}

/// The listed descriptors, ascending, each once.
pub fn sorted_unique_fds(fds: &[i32]) -> (r: Vec<i32>)
    ensures
        forall|i: int, j: int| 0 <= i < j < r@.len() ==> r@[i] < r@[j],
        r@.to_set() == fds@.to_set(),
{
    broadcast use vstd::set::group_set_axioms;

    let mut result: Vec<i32> = Vec::new();
    let mut k: usize = 0;
    assert(fds@.subrange(0, 0).to_set() =~= result@.to_set());
    while k < fds.len()
        invariant
            k <= fds@.len(),
            forall|i: int, j: int| 0 <= i < j < result@.len() ==> result@[i] < result@[j],
            result@.to_set() == fds@.subrange(0, k as int).to_set(),
        decreases fds.len() - k,
    {
        let fd = fds[k];
        proof {
            assert(fds@.subrange(0, k + 1) =~= fds@.subrange(0, k as int).push(fd));
            fds@.subrange(0, k as int).lemma_push_to_set_commute(fd);
        }
        insert_fd(&mut result, fd);
        k += 1;
    }
    assert(fds@.subrange(0, fds@.len() as int) =~= fds@);
    result
}

#[derive(Debug, Clone, Copy, PartialEq, Eq, Structural)]
pub enum FdSanitizationError {
    Failed,
}

/// Closes the descriptors a session child inherited.
pub trait InheritedFdSanitizer: Send + Sync {
    /// Closes every descriptor but standard input, output and error.
    fn sanitize(&self) -> Result<(), FdSanitizationError>;

    /// Closes every descriptor but standard input, output and error and the
    /// allowed ones. Unless overridden, only an empty allow-list is accepted.
    fn sanitize_with_allowlist(&self, allowed_fds: &[i32]) -> (r: Result<(), FdSanitizationError>)
        default_ensures
            allowed_fds@.len() > 0 ==> r == Err::<(), FdSanitizationError>(
                FdSanitizationError::Failed,
            ),
    {
        if allowed_fds.len() == 0 {
            self.sanitize()
        } else {
            Err(FdSanitizationError::Failed)
        }
    }
}

/// Audits the isolation of the calling process after its credential drop.
pub trait PostDropAuditor: Send + Sync {
    fn audit(&self) -> Result<PostDropIsolationProof, PostDropAuditError>;
}

#[derive(Debug, Clone, Copy, PartialEq, Eq, Structural)]
pub enum PostDropAuditError {
    Failed,
    UnsupportedCapabilityRange,
}

#[derive(Debug, Clone, Copy, PartialEq, Eq, Structural)]
pub enum PostDropCapabilitySanitizationError {
    Failed,
}

/// The capabilities a per-capability query reported as set: `answers[c]`
/// is what the query for capability `c` gave, `1` for set and `0` for not
/// set; a negative answer is a failed query.
pub fn reported_capabilities(answers: &[i64]) -> (r: Result<Vec<u32>, PostDropAuditError>)
    requires
        answers@.len() <= HARD_MAX_CAPABILITY_ID + 1,
    ensures
        r is Err <==> exists|c: int| 0 <= c < answers@.len() && answers@[c] < 0,
        r matches Err(e) ==> e == PostDropAuditError::Failed,
        r matches Ok(v) ==> (forall|i: int, j: int| 0 <= i < j < v@.len() ==> v@[i] < v@[j]) && (
        forall|c: int|
            0 <= c <= u32::MAX ==> (#[trigger] v@.contains(c as u32) <==> (c < answers@.len()
                && answers@[c] == 1))),
{
    let mut set: Vec<u32> = Vec::new();
    let mut c: usize = 0;
    while c < answers.len()
        invariant
            c <= answers@.len(),
            answers@.len() <= HARD_MAX_CAPABILITY_ID + 1,
            forall|k: int| 0 <= k < c ==> answers@[k] >= 0,
            forall|i: int, j: int| 0 <= i < j < set@.len() ==> set@[i] < set@[j],
            forall|i: int| 0 <= i < set@.len() ==> set@[i] < c,
            forall|k: int| 0 <= k <= u32::MAX ==> (set@.contains(k as u32) <==> (k < c && answers@[k] == 1)),
        decreases answers.len() - c,
    {
        if answers[c] < 0 {
            return Err(PostDropAuditError::Failed);
        }
        if answers[c] == 1 {
            let ghost before = set@;
            set.push(c as u32);
            assert forall|k: int| 0 <= k <= u32::MAX implies (set@.contains(k as u32) <==> (k < c + 1
                && answers@[k] == 1)) by {
                if k == c {
                    assert(set@[set@.len() - 1] == c as u32);
                } else if set@.contains(k as u32) {
                    let idx = choose|idx: int| 0 <= idx < set@.len() && set@[idx] == k as u32;
                    if idx < before.len() {
                        assert(before[idx] == k as u32);
                    }
                }
                if k < c && answers@[k] == 1 {
                    assert(before.contains(k as u32));
                    let idx = choose|idx: int| 0 <= idx < before.len() && before[idx] == k as u32;
                    assert(set@[idx] == k as u32);
                }
            }
        }
        c += 1;
    }
    Ok(set)
}

/// The isolation proof an audit assembles from what it read: the
/// capability words of the effective, permitted and inheritable sets, the
/// per-capability ambient and bounding answers up to `last`, the secure
/// bits, `no_new_privs` and the descriptors found open (sorted, each once).
/// A failed capability query fails the audit.
pub fn assemble_post_drop_proof(
    last: u32,
    effective: &[u32],
    permitted: &[u32],
    inheritable: &[u32],
    ambient_answers: &[i64],
    bounding_answers: &[i64],
    securebits: u32,
    no_new_privs: bool,
    open_fds: &[i32],
) -> (r: Result<PostDropIsolationProof, PostDropAuditError>)
    requires
        effective@.len() <= 0x800_0000,
        permitted@.len() <= 0x800_0000,
        inheritable@.len() <= 0x800_0000,
        ambient_answers@.len() <= HARD_MAX_CAPABILITY_ID + 1,
        bounding_answers@.len() <= HARD_MAX_CAPABILITY_ID + 1,
    ensures
        r is Err <==> (exists|c: int| 0 <= c < ambient_answers@.len() && ambient_answers@[c] < 0)
            || (exists|c: int| 0 <= c < bounding_answers@.len() && bounding_answers@[c] < 0),
        r matches Err(e) ==> e == PostDropAuditError::Failed,
        r matches Ok(proof) ==> {
            &&& proof.capabilities.cap_last_cap == last
            &&& proof.securebits == securebits
            &&& proof.no_new_privs == no_new_privs
            &&& forall|cap: int|
                0 <= cap <= u32::MAX ==> {
                    &&& (proof.capabilities.effective@.contains(cap as u32) <==> cap_bit_set(
                        effective@,
                        last,
                        cap,
                    ))
                    &&& (proof.capabilities.permitted@.contains(cap as u32) <==> cap_bit_set(
                        permitted@,
                        last,
                        cap,
                    ))
                    &&& (proof.capabilities.inheritable@.contains(cap as u32) <==> cap_bit_set(
                        inheritable@,
                        last,
                        cap,
                    ))
                    &&& (proof.capabilities.ambient@.contains(cap as u32) <==> (cap
                        < ambient_answers@.len() && ambient_answers@[cap] == 1))
                    &&& (proof.capabilities.bounding@.contains(cap as u32) <==> (cap
                        < bounding_answers@.len() && bounding_answers@[cap] == 1))
                }
            &&& proof.open_fds@.to_set() == open_fds@.to_set()
            &&& forall|i: int, j: int|
                0 <= i < j < proof.open_fds@.len() ==> proof.open_fds@[i] < proof.open_fds@[j]
        },
{
    let ambient = match reported_capabilities(ambient_answers) {
        Ok(v) => v,
        Err(e) => {
            return Err(e);
        },
    };
    let bounding = match reported_capabilities(bounding_answers) {
        Ok(v) => v,
        Err(e) => {
            return Err(e);
        },
    };
    let e = bits(effective, last);
    let p = bits(permitted, last);
    let i = bits(inheritable, last);
    let fds = sorted_unique_fds(open_fds);
    assert forall|cap: int| 0 <= cap <= u32::MAX implies {
        &&& (e@.contains(cap as u32) <==> cap_bit_set(effective@, last, cap))
        &&& (p@.contains(cap as u32) <==> cap_bit_set(permitted@, last, cap))
        &&& (i@.contains(cap as u32) <==> cap_bit_set(inheritable@, last, cap))
        &&& (ambient@.contains(cap as u32) <==> (cap < ambient_answers@.len()
            && ambient_answers@[cap] == 1))
        &&& (bounding@.contains(cap as u32) <==> (cap < bounding_answers@.len()
            && bounding_answers@[cap] == 1))
    } by {
        assert(e@.contains(cap as u32) <==> cap_bit_set(effective@, last, cap));
        assert(p@.contains(cap as u32) <==> cap_bit_set(permitted@, last, cap));
        assert(i@.contains(cap as u32) <==> cap_bit_set(inheritable@, last, cap));
        assert(ambient@.contains(cap as u32) <==> (cap < ambient_answers@.len()
            && ambient_answers@[cap] == 1));
    }
    Ok(
        PostDropIsolationProof {
            capabilities: CapabilityState {
                effective: e,
                permitted: p,
                inheritable: i,
                ambient,
                bounding,
                cap_last_cap: last,
            },
            securebits,
            no_new_privs,
            open_fds: fds,
        },
    )
}

/// The highest capability number from the text of `cap_last_cap`: trimmed,
/// read as a `u32`, and at most `HARD_MAX_CAPABILITY_ID`.
pub fn parse_cap_last_cap(text: &str) -> (r: Result<u32, PostDropAuditError>)
    ensures
        r == (match spec_parse_unsigned(utf8_bytes(str_trim(text@)), u32::MAX as nat) {
            None => Err::<u32, PostDropAuditError>(PostDropAuditError::Failed),
            Some(n) => if n > HARD_MAX_CAPABILITY_ID {
                Err(PostDropAuditError::UnsupportedCapabilityRange)
            } else {
                Ok(n as u32)
            },
        }),
{
    let trimmed = trim_str(text);
    match parse_unsigned(str_bytes(trimmed), u32::MAX) {
        None => Err(PostDropAuditError::Failed),
        Some(n) => {
            if n > HARD_MAX_CAPABILITY_ID {
                Err(PostDropAuditError::UnsupportedCapabilityRange)
            } else {
                Ok(n)
            }
        },
    }
}

} // verus!
