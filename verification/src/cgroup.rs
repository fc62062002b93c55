//! The text formats of cgroup v2 and of systemd's invocation ids.
use vstd::prelude::*;

use crate::names::{
    lit_cgroup_events, lit_cgroup_events_vec, lit_cgroup_procs, lit_cgroup_procs_vec,
    lit_cgroup_root, lit_cgroup_root_vec, lit_populated, lit_populated_vec, lit_unified_prefix,
    lit_unified_prefix_vec,
};
use crate::payload_scope::{CgroupEmptyState, InvocationBackendError, PayloadScopeError};
use crate::text::{
    append_bytes, ascii_string, bytes_equal, contains_pair, has_pair, field_spans, has_prefix, lemma_valid_between_ascii, line_spans,
    parse_unsigned, spec_fields, spec_lines, spec_parse_unsigned, starts_with, str_bytes,
    str_trim, trim_str, utf8_bytes, Span,
};

verus! {

/// An invocation id is 16 bytes.
pub const INVOCATION_ID_BYTES: usize = 16;

/// The lowercase hex digit of a value below 16.
pub open spec fn hex_digit(n: u8) -> u8 {
    if n < 10 {
        (48 + n) as u8
    } else {
        (87 + n) as u8
    }
}

/// Lowercase hex rendering, two digits per byte.
pub open spec fn spec_hex(bytes: Seq<u8>) -> Seq<u8> {
    Seq::new(
        2 * bytes.len(),
        |i: int|
            if i % 2 == 0 {
                hex_digit(bytes[i / 2] / 16)
            } else {
                hex_digit(bytes[i / 2] % 16)
            },
    )
}

pub open spec fn is_hex_digit(b: u8) -> bool {
    (48u8 <= b <= 57u8) || (97u8 <= b <= 102u8) || (65u8 <= b <= 70u8)
}

/// Value of a hex digit of either case.
pub open spec fn hex_value(b: u8) -> u8 {
    if 48u8 <= b <= 57u8 {
        (b - 48) as u8
    } else if 97u8 <= b <= 102u8 {
        (b - 87) as u8
    } else {
        (b - 55) as u8
    }
}

/// An invocation id as text: exactly 32 hex digits, read two by two.
pub open spec fn spec_parse_hex_id(text: Seq<u8>) -> Option<Seq<u8>> {
    if text.len() == 32 && forall|i: int| 0 <= i < 32 ==> is_hex_digit(#[trigger] text[i]) {
        Some(
            Seq::new(
                16,
                |i: int| (hex_value(text[2 * i]) * 16 + hex_value(text[2 * i + 1])) as u8,
            ),
        )
    } else {
        None
    }
}

pub fn hex_digit_of(n: u8) -> (r: u8)
    requires
        n < 16,
    ensures
        r == hex_digit(n),
{
    if n < 10 {
        48 + n
    } else {
        87 + n
    }
}

/// Renders a 16-byte invocation id as 32 lowercase hex digits.
pub fn hex_id(bytes: &[u8]) -> (r: Option<String>)
    ensures
        (r is Some) == (bytes@.len() == INVOCATION_ID_BYTES),
        r matches Some(s) ==> utf8_bytes(s@) == spec_hex(bytes@),
{
    if bytes.len() != INVOCATION_ID_BYTES {
        return None;
    }
    let mut out: Vec<u8> = Vec::new();
    let mut i: usize = 0;
    while i < bytes.len()
        invariant
            i <= bytes.len() == 16,
            out@.len() == 2 * i,
            forall|j: int| 0 <= j < 2 * i ==> out@[j] == spec_hex(bytes@)[j],
            forall|j: int| 0 <= j < out@.len() ==> out@[j] <= 0x7fu8,
        decreases bytes.len() - i,
    {
        out.push(hex_digit_of(bytes[i] / 16));
        out.push(hex_digit_of(bytes[i] % 16));
        proof {
            assert((2 * i) / 2 == i && (2 * i) % 2 == 0);
            assert((2 * i + 1) / 2 == i && (2 * i + 1) % 2 == 1);
        }
        i += 1;
    }
    assert(out@ =~= spec_hex(bytes@));
    Some(ascii_string(out))
}

pub fn hex_value_of(b: u8) -> (r: u8)
    requires
        is_hex_digit(b),
    ensures
        r == hex_value(b),
        r < 16,
{
    if 48u8 <= b && b <= 57u8 {
        b - 48
    } else if 97u8 <= b && b <= 102u8 {
        b - 87
    } else {
        b - 55
    }
}

/// Reads an invocation id written as 32 hex digits back into its 16 bytes.
pub fn parse_hex_id(value: &str) -> (r: Option<Vec<u8>>)
    ensures
        match spec_parse_hex_id(utf8_bytes(value@)) {
            Some(b) => r matches Some(v) && v@ == b,
            None => r is None,
        },
{
    let text = str_bytes(value);
    if text.len() != 32 {
        return None;
    }
    let mut k: usize = 0;
    while k < 32
        invariant
            k <= 32,
            text@.len() == 32,
            text@ == utf8_bytes(value@),
            forall|j: int| 0 <= j < k ==> is_hex_digit(#[trigger] text@[j]),
        decreases 32 - k,
    {
        let b = text[k];
        if !((48u8 <= b && b <= 57u8) || (97u8 <= b && b <= 102u8) || (65u8 <= b && b <= 70u8)) {
            assert(!is_hex_digit(text@[k as int]));
            assert(!(forall|i: int| 0 <= i < 32 ==> is_hex_digit(#[trigger] text@[i])));
            return None;
        }
        k += 1;
    }
    let mut out: Vec<u8> = Vec::new();
    let mut i: usize = 0;
    let ghost expected = spec_parse_hex_id(text@)->Some_0;
    while i < 16
        invariant
            i <= 16,
            text@.len() == 32,
            text@ == utf8_bytes(value@),
            forall|j: int| 0 <= j < 32 ==> is_hex_digit(#[trigger] text@[j]),
            spec_parse_hex_id(text@) == Some(expected),
            out@.len() == i,
            forall|j: int| 0 <= j < i ==> out@[j] == expected[j],
        decreases 16 - i,
    {
        let hi = hex_value_of(text[2 * i]);
        let lo = hex_value_of(text[2 * i + 1]);
        out.push(hi * 16 + lo);
        i += 1;
    }
    assert(out@ =~= expected);
    Some(out)
}

/// Reading back what was rendered gives the same bytes.
pub proof fn lemma_hex_id_round_trip(bytes: Seq<u8>)
    requires
        bytes.len() == INVOCATION_ID_BYTES,
    ensures
        spec_parse_hex_id(spec_hex(bytes)) == Some(bytes),
{
    let text = spec_hex(bytes);
    assert forall|i: int| 0 <= i < 32 implies is_hex_digit(#[trigger] text[i]) by {
        let v = if i % 2 == 0 {
            bytes[i / 2] / 16
        } else {
            bytes[i / 2] % 16
        };
        assert(v < 16);
        assert(text[i] == hex_digit(v));
    }
    let parsed = spec_parse_hex_id(text)->Some_0;
    assert forall|i: int| 0 <= i < 16 implies parsed[i] == bytes[i] by {
        assert((2 * i) / 2 == i && (2 * i) % 2 == 0);
        assert((2 * i + 1) / 2 == i && (2 * i + 1) % 2 == 1);
        let b = bytes[i];
        assert(hex_value(hex_digit(b / 16)) == b / 16);
        assert(hex_value(hex_digit(b % 16)) == b % 16);
        assert((b / 16) * 16 + b % 16 == b);
    }
    assert(parsed =~= bytes);
}

/// Rendering what was read gives back lowercase text unchanged.
pub proof fn lemma_hex_text_round_trip(text: Seq<u8>)
    requires
        spec_parse_hex_id(text) is Some,
        forall|i: int| 0 <= i < text.len() ==> !(65u8 <= #[trigger] text[i] <= 70u8),
    ensures
        spec_hex(spec_parse_hex_id(text)->Some_0) == text,
{
    let bytes = spec_parse_hex_id(text)->Some_0;
    let rendered = spec_hex(bytes);
    assert forall|i: int| 0 <= i < 32 implies rendered[i] == text[i] by {
        let k = i / 2;
        assert(is_hex_digit(text[2 * k]) && is_hex_digit(text[2 * k + 1]));
        let hi = hex_value(text[2 * k]);
        let lo = hex_value(text[2 * k + 1]);
        assert(hi < 16 && lo < 16);
        assert(bytes[k] == (hi * 16 + lo) as u8);
        assert((hi * 16 + lo) / 16 == hi) by (nonlinear_arith)
            requires
                hi < 16,
                lo < 16,
        ;
        assert((hi * 16 + lo) % 16 == lo) by (nonlinear_arith)
            requires
                hi < 16,
                lo < 16,
        ;
        if i % 2 == 0 {
            assert(i == 2 * k);
        } else {
            assert(i == 2 * k + 1);
        }
    }
    assert(rendered =~= text);
}

/// A line of `cgroup.events` holds nothing or a key and one value.
pub open spec fn line_shape_ok(line: Seq<u8>) -> bool {
    spec_fields(line).len() == 0 || spec_fields(line).len() == 2
}

pub open spec fn is_populated_line(line: Seq<u8>) -> bool {
    spec_fields(line).len() >= 1 && spec_fields(line)[0] == lit_populated()
}

/// The values of the `populated` lines, in order.
pub open spec fn populated_values(lines: Seq<Seq<u8>>) -> Seq<Seq<u8>>
    decreases lines.len(),
{
    if lines.len() == 0 {
        seq![]
    } else {
        let prev = populated_values(lines.drop_last());
        if is_populated_line(lines.last()) {
            prev.push(spec_fields(lines.last())[1])
        } else {
            prev
        }
    }
}

/// `cgroup.events` gives the populated flag when every line is empty or a
/// key and value, exactly one line has the key `populated`, and its value
/// reads as 0 or 1.
pub open spec fn spec_parse_populated(text: Seq<u8>) -> Option<u8> {
    let lines = spec_lines(text);
    let values = populated_values(lines);
    if (forall|i: int| 0 <= i < lines.len() ==> line_shape_ok(#[trigger] lines[i])) && values.len()
        == 1 && spec_parse_unsigned(values[0], 1) is Some {
        Some(spec_parse_unsigned(values[0], 1)->Some_0 as u8)
    } else {
        None
    }
}

pub proof fn lemma_populated_values_prefix(lines: Seq<Seq<u8>>, j: int)
    requires
        0 <= j <= lines.len(),
    ensures
        populated_values(lines.subrange(0, j)).len() <= populated_values(lines).len(),
        forall|i: int|
            0 <= i < populated_values(lines.subrange(0, j)).len() ==> populated_values(
                lines.subrange(0, j),
            )[i] == #[trigger] populated_values(lines)[i],
    decreases lines.len() - j,
{
    if j < lines.len() {
        lemma_populated_values_prefix(lines, j + 1);
        assert(lines.subrange(0, j + 1).drop_last() =~= lines.subrange(0, j));
    } else {
        assert(lines.subrange(0, j) =~= lines);
    }
}

/// Reads the populated flag from the text of `cgroup.events`.
pub fn parse_populated(text: &str) -> (r: Result<u8, PayloadScopeError>)
    ensures
        match spec_parse_populated(utf8_bytes(text@)) {
            Some(v) => r == Ok::<u8, PayloadScopeError>(v),
            None => r == Err::<u8, PayloadScopeError>(PayloadScopeError::InvalidMembership),
        },
{
    let bytes = str_bytes(text);
    let spans = line_spans(bytes);
    let ghost lines = spec_lines(bytes@);
    let key = lit_populated_vec();
    let mut populated: Option<u8> = None;
    let mut k: usize = 0;
    while k < spans.len()
        invariant
            k <= spans@.len() == lines.len(),
            bytes@ == utf8_bytes(text@),
            lines == spec_lines(bytes@),
            key@ == lit_populated(),
            forall|i: int|
                0 <= i < spans@.len() ==> ((#[trigger] spans@[i]).start <= spans@[i].end
                    <= bytes@.len() && bytes@.subrange(spans@[i].start as int, spans@[i].end as int)
                    == lines[i]),
            forall|i: int| 0 <= i < k ==> line_shape_ok(#[trigger] lines[i]),
            populated_values(lines.subrange(0, k as int)).len() <= 1,
            populated_values(lines.subrange(0, k as int)).len() == 1 ==> populated == Some(
                spec_parse_unsigned(populated_values(lines.subrange(0, k as int))[0], 1)->Some_0 as u8,
            ) && spec_parse_unsigned(populated_values(lines.subrange(0, k as int))[0], 1) is Some,
            populated_values(lines.subrange(0, k as int)).len() == 0 ==> populated is None,
        decreases spans@.len() - k,
    {
        let span = &spans[k];
        let line = &bytes[span.start..span.end];
        let fields = field_spans(line);
        let ghost prefix = lines.subrange(0, k as int);
        let ghost next = lines.subrange(0, k + 1);
        assert(next.drop_last() =~= prefix);
        assert(line@ == lines[k as int]);
        if fields.len() == 0 {
            assert(!is_populated_line(lines[k as int]));
        } else if fields.len() != 2 {
            assert(!line_shape_ok(lines[k as int]));
            return Err(PayloadScopeError::InvalidMembership);
        } else {
            let f0 = &fields[0];
            let f1 = &fields[1];
            let name = &line[f0.start..f0.end];
            let value = &line[f1.start..f1.end];
            assert(name@ == spec_fields(lines[k as int])[0]);
            assert(value@ == spec_fields(lines[k as int])[1]);
            if bytes_equal(name, key.as_slice()) {
                assert(populated_values(next) == populated_values(prefix).push(value@));
                proof {
                    lemma_populated_values_prefix(lines, k + 1);
                    assert(lines.subrange(0, lines.len() as int) =~= lines);
                }
                if populated.is_some() {
                    return Err(PayloadScopeError::InvalidMembership);
                }
                match parse_unsigned(value, 1) {
                    Some(v) => {
                        populated = Some(v as u8);
                    },
                    None => {
                        return Err(PayloadScopeError::InvalidMembership);
                    },
                }
            }
        }
        k += 1;
    }
    assert(lines.subrange(0, lines.len() as int) =~= lines);
    match populated {
        Some(v) => Ok(v),
        None => Err(PayloadScopeError::InvalidMembership),
    }
}

/// The first line of `/proc/<pid>/cgroup` that names the unified hierarchy
/// (`0::`) gives the cgroup, the text after that prefix.
pub open spec fn spec_first_unified(lines: Seq<Seq<u8>>) -> Option<Seq<u8>>
    decreases lines.len(),
{
    if lines.len() == 0 {
        None
    } else if starts_with(lines[0], lit_unified_prefix()) {
        Some(lines[0].subrange(3, lines[0].len() as int))
    } else {
        spec_first_unified(lines.drop_first())
    }
}

pub open spec fn spec_parse_unified_cgroup(text: Seq<u8>) -> Option<Seq<u8>> {
    spec_first_unified(spec_lines(text))
}

/// Reads a process's unified-hierarchy cgroup from the text of
/// `/proc/<pid>/cgroup`.
pub fn parse_unified_cgroup(text: &str) -> (r: Result<String, PayloadScopeError>)
    ensures
        match spec_parse_unified_cgroup(utf8_bytes(text@)) {
            Some(path) => r matches Ok(s) && utf8_bytes(s@) == path,
            None => r == Err::<String, PayloadScopeError>(PayloadScopeError::CgroupMismatch),
        },
{
    let bytes = str_bytes(text);
    let spans = line_spans(bytes);
    let ghost lines = spec_lines(bytes@);
    let prefix = lit_unified_prefix_vec();
    proof {
        vstd::utf8::encode_utf8_valid_utf8(text@);
    }
    let mut k: usize = 0;
    assert(lines.subrange(0, lines.len() as int) =~= lines);
    while k < spans.len()
        invariant
            k <= spans@.len() == lines.len(),
            bytes@ == utf8_bytes(text@),
            vstd::utf8::valid_utf8(bytes@),
            lines == spec_lines(bytes@),
            prefix@ == lit_unified_prefix(),
            spans_are_lines(bytes@, spans@, lines),
            spec_first_unified(lines) == spec_first_unified(lines.subrange(k as int, lines.len() as int)),
        decreases spans@.len() - k,
    {
        let span = &spans[k];
        let line = &bytes[span.start..span.end];
        let ghost rest = lines.subrange(k as int, lines.len() as int);
        assert(rest[0] == lines[k as int]);
        if has_prefix(line, prefix.as_slice()) {
            let start = span.start + 3;
            let end = span.end;
            proof {
                assert(bytes@[start - 1] == line@[2]);
                lemma_valid_between_ascii(bytes@, start as int, end as int);
                assert(bytes@.subrange(start as int, end as int) =~= lines[k as int].subrange(
                    3,
                    lines[k as int].len() as int,
                ));
            }
            let mut out: Vec<u8> = Vec::new();
            crate::text::append_bytes(&mut out, &bytes[start..end]);
            assert(out@ =~= bytes@.subrange(start as int, end as int));
            match crate::text::string_from_bytes(out) {
                Some(s) => {
                    return Ok(s);
                },
                None => {
                    assert(false);
                    return Err(PayloadScopeError::CgroupMismatch);
                },
            }
        }
        assert(rest.drop_first() =~= lines.subrange(k + 1, lines.len() as int));
        k += 1;
    }
    Err(PayloadScopeError::CgroupMismatch)
}

/// Every line span holds its line, and ends at the text's end or at a line break.
pub open spec fn spans_are_lines(bytes: Seq<u8>, spans: Seq<Span>, lines: Seq<Seq<u8>>) -> bool {
    &&& spans.len() == lines.len()
    &&& forall|i: int|
        0 <= i < spans.len() ==> {
            &&& (#[trigger] spans[i]).start <= spans[i].end <= bytes.len()
            &&& bytes.subrange(spans[i].start as int, spans[i].end as int) == lines[i]
            &&& (spans[i].end == bytes.len() || bytes[spans[i].end as int] == 10u8
                || bytes[spans[i].end as int] == 13u8)
        }
}

pub open spec fn sorted(s: Seq<u32>) -> bool {
    forall|i: int, j: int| 0 <= i <= j < s.len() ==> s[i] <= s[j]
}

/// Inserts `x` where it keeps `v` sorted.
pub fn insert_sorted(v: &mut Vec<u32>, x: u32)
    requires
        sorted(old(v)@),
    ensures
        sorted(final(v)@),
        final(v)@.to_multiset() == old(v)@.to_multiset().insert(x),
{
    let mut i: usize = 0;
    while i < v.len() && v[i] < x
        invariant
            i <= v@.len(),
            v@ == old(v)@,
            forall|j: int| 0 <= j < i ==> v@[j] < x,
        decreases v.len() - i,
    {
        i += 1;
    }
    let ghost before = v@;
    v.insert(i, x);
    proof {
        vstd::seq_lib::to_multiset_insert(before, i as int, x);
        assert forall|a: int, b: int| 0 <= a <= b < v@.len() implies v@[a] <= v@[b] by {
            if a < i as int && b > i as int {
                assert(v@[a] == before[a] && v@[b] == before[b - 1]);
            }
        }
    }
}

/// The member processes of a cgroup, from the text of `cgroup.procs`: each
/// line must read as a process id.
pub open spec fn spec_member_values(lines: Seq<Seq<u8>>) -> Seq<u32> {
    Seq::new(lines.len(), |i: int| spec_parse_unsigned(lines[i], u32::MAX as nat)->Some_0 as u32)
}

pub open spec fn members_parse(lines: Seq<Seq<u8>>) -> bool {
    forall|i: int| 0 <= i < lines.len() ==> spec_parse_unsigned(#[trigger] lines[i], u32::MAX as nat) is Some
}

/// Reads the sorted member process ids of a cgroup from `cgroup.procs`.
pub fn parse_members(text: &str) -> (r: Result<Vec<u32>, PayloadScopeError>)
    ensures
        members_parse(spec_lines(utf8_bytes(text@))) <==> r is Ok,
        r matches Ok(m) ==> sorted(m@) && m@.to_multiset() == spec_member_values(
            spec_lines(utf8_bytes(text@)),
        ).to_multiset(),
        r matches Err(e) ==> e == PayloadScopeError::InvalidMembership,
{
    let bytes = str_bytes(text);
    let spans = line_spans(bytes);
    let ghost lines = spec_lines(bytes@);
    let ghost values = spec_member_values(lines);
    let mut members: Vec<u32> = Vec::new();
    let mut k: usize = 0;
    assert(values.subrange(0, 0).to_multiset() =~= members@.to_multiset()) by {
        broadcast use vstd::multiset::group_multiset_axioms;
        assert(values.subrange(0, 0) =~= Seq::<u32>::empty());
        assert(members@ =~= Seq::<u32>::empty());
    }
    while k < spans.len()
        invariant
            k <= spans@.len() == lines.len(),
            bytes@ == utf8_bytes(text@),
            lines == spec_lines(bytes@),
            values == spec_member_values(lines),
            forall|i: int|
                0 <= i < spans@.len() ==> ((#[trigger] spans@[i]).start <= spans@[i].end
                    <= bytes@.len() && bytes@.subrange(spans@[i].start as int, spans@[i].end as int)
                    == lines[i]),
            forall|i: int| 0 <= i < k ==> spec_parse_unsigned(#[trigger] lines[i], u32::MAX as nat) is Some,
            sorted(members@),
            members@.to_multiset() == values.subrange(0, k as int).to_multiset(),
        decreases spans@.len() - k,
    {
        let span = &spans[k];
        let line = &bytes[span.start..span.end];
        assert(line@ == lines[k as int]);
        match parse_unsigned(line, u32::MAX) {
            Some(pid) => {
                insert_sorted(&mut members, pid);
                proof {
                    assert(values.subrange(0, k + 1) =~= values.subrange(0, k as int).push(pid));
                    vstd::seq_lib::to_multiset_build(values.subrange(0, k as int), pid);
                }
            },
            None => {
                return Err(PayloadScopeError::InvalidMembership);
            },
        }
        k += 1;
    }
    assert(values.subrange(0, k as int) =~= values);
    Ok(members)
}

/// Longest cgroup state file, in bytes, that the worker reads.
pub const MAX_CGROUP_STATE_BYTES: usize = 4096;

/// The text of a bounded cgroup state file: refused where the read went past
/// the bound or the bytes are not UTF-8.
pub fn bounded_text(bytes: Vec<u8>) -> (r: Result<String, PayloadScopeError>)
    ensures
        r is Ok <==> (bytes@.len() <= MAX_CGROUP_STATE_BYTES && vstd::utf8::valid_utf8(bytes@)),
        r matches Ok(s) ==> utf8_bytes(s@) == bytes@,
        r matches Err(e) ==> e == PayloadScopeError::InvalidMembership,
{
    if bytes.len() > MAX_CGROUP_STATE_BYTES {
        return Err(PayloadScopeError::InvalidMembership);
    }
    match crate::text::string_from_bytes(bytes) {
        Some(s) => Ok(s),
        None => Err(PayloadScopeError::InvalidMembership),
    }
}

/// `s` without its leading slashes.
pub open spec fn trim_leading_slashes(s: Seq<u8>) -> Seq<u8>
    decreases s.len(),
{
    if s.len() > 0 && s[0] == 47u8 {
        trim_leading_slashes(s.drop_first())
    } else {
        s
    }
}

/// `Path::join` of a relative component onto a base.
pub open spec fn path_join(base: Seq<u8>, component: Seq<u8>) -> Seq<u8> {
    if component.len() > 0 && component[0] == 47u8 {
        component
    } else if base.len() > 0 && base.last() == 47u8 {
        base + component
    } else {
        base + seq![47u8] + component
    }
}

/// A cgroup path the worker will look under: absolute and without `..`.
pub open spec fn spec_cgroup_path_ok(cgroup: Seq<u8>) -> bool {
    cgroup.len() > 0 && cgroup[0] == 47u8 && !contains_pair(cgroup, 46u8, 46u8)
}

pub open spec fn spec_cgroup_file(root: Seq<u8>, cgroup: Seq<u8>, name: Seq<u8>) -> Seq<u8> {
    path_join(path_join(root, trim_leading_slashes(cgroup)), name)
}

pub fn join_path(base: &[u8], component: &[u8]) -> (r: Vec<u8>)
    ensures
        r@ == path_join(base@, component@),
{
    if component.len() > 0 && component[0] == 47u8 {
        let mut r: Vec<u8> = Vec::new();
        append_bytes(&mut r, component);
        assert(r@ =~= component@);
        return r;
    }
    let mut r: Vec<u8> = Vec::new();
    append_bytes(&mut r, base);
    if !(base.len() > 0 && base[base.len() - 1] == 47u8) {
        r.push(47u8);
    }
    append_bytes(&mut r, component);
    r
}

/// The directory of a cgroup under `root`.
pub open spec fn spec_cgroup_dir(root: Seq<u8>, cgroup: Seq<u8>) -> Seq<u8> {
    path_join(root, trim_leading_slashes(cgroup))
}

/// The directory of a cgroup under `root`: the cgroup path, without its
/// leading slashes, joined onto the root.
pub fn cgroup_dir_under(root: &[u8], cgroup: &str) -> (r: Result<Vec<u8>, PayloadScopeError>)
    ensures
        r is Ok <==> spec_cgroup_path_ok(utf8_bytes(cgroup@)),
        r matches Ok(p) ==> p@ == spec_cgroup_dir(root@, utf8_bytes(cgroup@)),
        r matches Err(e) ==> e == PayloadScopeError::InvalidIdentity,
{
    let c = str_bytes(cgroup);
    if !(c.len() > 0 && c[0] == 47u8) || has_pair(c, 46u8, 46u8) {
        return Err(PayloadScopeError::InvalidIdentity);
    }
    let mut i: usize = 0;
    assert(c@.subrange(0, c@.len() as int) =~= c@);
    while i < c.len() && c[i] == 47u8
        invariant
            i <= c@.len(),
            trim_leading_slashes(c@) == trim_leading_slashes(c@.subrange(i as int, c@.len() as int)),
        decreases c.len() - i,
    {
        assert(c@.subrange(i as int, c@.len() as int).drop_first() =~= c@.subrange(
            i + 1,
            c@.len() as int,
        ));
        i += 1;
    }
    let ghost rest = c@.subrange(i as int, c@.len() as int);
    assert(trim_leading_slashes(rest) == rest);
    Ok(join_path(root, &c[i..c.len()]))
}

/// The file `name` of a cgroup under `root`.
pub fn cgroup_file_under(root: &[u8], cgroup: &str, name: &[u8]) -> (r: Result<
    Vec<u8>,
    PayloadScopeError,
>)
    ensures
        r is Ok <==> spec_cgroup_path_ok(utf8_bytes(cgroup@)),
        r matches Ok(p) ==> p@ == spec_cgroup_file(root@, utf8_bytes(cgroup@), name@),
        r matches Err(e) ==> e == PayloadScopeError::InvalidIdentity,
{
    match cgroup_dir_under(root, cgroup) {
        Ok(directory) => Ok(join_path(directory.as_slice(), name)),
        Err(e) => Err(e),
    }
}

/// The file `name` of a cgroup, under `/sys/fs/cgroup`.
pub fn cgroup_file_named(cgroup: &str, name: &[u8]) -> (r: Result<Vec<u8>, PayloadScopeError>)
    ensures
        r is Ok <==> spec_cgroup_path_ok(utf8_bytes(cgroup@)),
        r matches Ok(p) ==> p@ == spec_cgroup_file(lit_cgroup_root(), utf8_bytes(cgroup@), name@),
        r matches Err(e) ==> e == PayloadScopeError::InvalidIdentity,
{
    let root = lit_cgroup_root_vec();
    cgroup_file_under(root.as_slice(), cgroup, name)
}

/// `cgroup.procs` of a cgroup, under `/sys/fs/cgroup`.
pub fn cgroup_file(cgroup: &str) -> (r: Result<Vec<u8>, PayloadScopeError>)
    ensures
        r is Ok <==> spec_cgroup_path_ok(utf8_bytes(cgroup@)),
        r matches Ok(p) ==> p@ == spec_cgroup_file(
            lit_cgroup_root(),
            utf8_bytes(cgroup@),
            lit_cgroup_procs(),
        ),
        r matches Err(e) ==> e == PayloadScopeError::InvalidIdentity,
{
    let name = lit_cgroup_procs_vec();
    cgroup_file_named(cgroup, name.as_slice())
}

/// What `symlink_metadata` says of a path.
#[derive(Debug, Clone, Copy, PartialEq, Eq, Structural)]
pub enum EntryKind {
    File,
    NotFile,
    NotFound,
    Unreadable,
}

/// The cgroup file system as the empty proof reads it.
pub trait CgroupFs {
    /// What is at `path`, without following a final symbolic link.
    fn entry_kind(&self, path: &[u8]) -> EntryKind;

    /// The text of a cgroup state file, bounded as `bounded_text` bounds it.
    fn read_bounded(&self, path: &[u8]) -> Result<String, PayloadScopeError>;
}


/// What the empty-state read gives, from what the file system answered: the
/// kind of the `cgroup.events` entry, the kind of the cgroup directory, and
/// the texts of `cgroup.events` and `cgroup.procs`. A bad cgroup path is
/// refused first; a missing events file is `Absent` where the directory is
/// missing too; otherwise the events must say `populated 0` and the
/// member list must be blank.
pub open spec fn spec_empty_state_outcome(
    cgroup: Seq<u8>,
    events_kind: EntryKind,
    directory_kind: EntryKind,
    events: Result<Seq<char>, PayloadScopeError>,
    procs: Result<Seq<char>, PayloadScopeError>,
) -> Result<CgroupEmptyState, PayloadScopeError> {
    if !spec_cgroup_path_ok(cgroup) {
        Err(PayloadScopeError::InvalidIdentity)
    } else {
        match events_kind {
            EntryKind::File => match events {
                Err(e) => Err(e),
                Ok(text) => match spec_parse_populated(utf8_bytes(text)) {
                    None => Err(PayloadScopeError::InvalidMembership),
                    Some(v) => if v != 0 {
                        Err(PayloadScopeError::BoundaryNotEmpty)
                    } else {
                        match procs {
                            Err(e) => Err(e),
                            Ok(members) => if str_trim(members).len() != 0 {
                                Err(PayloadScopeError::BoundaryNotEmpty)
                            } else {
                                Ok(CgroupEmptyState::PresentEmpty)
                            },
                        }
                    },
                },
            },
            EntryKind::NotFound => if directory_kind is NotFound {
                Ok(CgroupEmptyState::Absent)
            } else {
                Err(PayloadScopeError::InvalidMembership)
            },
            _ => Err(PayloadScopeError::InvalidMembership),
        }
    }
}

/// A question to the cgroup file system, with its path.
#[derive(Debug, PartialEq, Eq)]
pub enum FsRequest {
    /// What is at this path.
    EntryKind(Vec<u8>),
    /// The bounded text of the file at this path.
    ReadBounded(Vec<u8>),
}

/// A question to the cgroup file system, by its path's bytes.
pub enum FsRequestView {
    EntryKind(Seq<u8>),
    ReadBounded(Seq<u8>),
}

impl View for FsRequest {
    type V = FsRequestView;

    open spec fn view(&self) -> FsRequestView {
        match *self {
            FsRequest::EntryKind(path) => FsRequestView::EntryKind(path@),
            FsRequest::ReadBounded(path) => FsRequestView::ReadBounded(path@),
        }
    }
}

/// What the file system answered.
#[derive(Debug)]
pub enum FsAnswer {
    Nothing,
    Kind(EntryKind),
    Text(Result<String, PayloadScopeError>),
}

/// What the file system answered, by view.
pub enum FsAnswerView {
    Nothing,
    Kind(EntryKind),
    Text(Result<Seq<char>, PayloadScopeError>),
}

impl View for FsAnswer {
    type V = FsAnswerView;

    open spec fn view(&self) -> FsAnswerView {
        match *self {
            FsAnswer::Nothing => FsAnswerView::Nothing,
            FsAnswer::Kind(k) => FsAnswerView::Kind(k),
            FsAnswer::Text(Ok(t)) => FsAnswerView::Text(Ok(t@)),
            FsAnswer::Text(Err(e)) => FsAnswerView::Text(Err(e)),
        }
    }
}

/// How far the empty-state read has come: the answer awaited.
#[derive(Debug, Clone, Copy, PartialEq, Eq, Structural)]
pub enum EmptyStateStage {
    Start,
    AwaitingEventsKind,
    AwaitingDirectoryKind,
    AwaitingEvents,
    AwaitingProcs,
}

/// What the empty-state read does next.
#[derive(Debug, PartialEq, Eq)]
pub enum EmptyStateNext {
    Ask(FsRequest),
    Finish(Result<CgroupEmptyState, PayloadScopeError>),
}

/// An empty-state decision, by the view of the question it asks.
pub enum EmptyStateView {
    Ask(FsRequestView),
    Finish(Result<CgroupEmptyState, PayloadScopeError>),
}

impl View for EmptyStateNext {
    type V = EmptyStateView;

    open spec fn view(&self) -> EmptyStateView {
        match *self {
            EmptyStateNext::Ask(request) => EmptyStateView::Ask(request@),
            EmptyStateNext::Finish(r) => EmptyStateView::Finish(r),
        }
    }
}

/// The next step of the empty-state read of a cgroup under `root`: a bad
/// cgroup path is refused at every step; then the kind of `<root>/<cgroup>/cgroup.events`
/// is asked; a file is read, a missing one leads to the kind of
/// `<root>/<cgroup>`, which must be missing too (`Absent`); the events must
/// say `populated 0`; then `<root>/<cgroup>/cgroup.procs` is read and must
/// be blank (`PresentEmpty`).
pub open spec fn spec_empty_state_step(
    root: Seq<u8>,
    cgroup: Seq<u8>,
    stage: EmptyStateStage,
    answer: FsAnswerView,
) -> EmptyStateView {
    let events_path = spec_cgroup_file(root, cgroup, lit_cgroup_events());
    let procs_path = spec_cgroup_file(root, cgroup, lit_cgroup_procs());
    if !spec_cgroup_path_ok(cgroup) {
        EmptyStateView::Finish(Err(PayloadScopeError::InvalidIdentity))
    } else {
    match (stage, answer) {
        (EmptyStateStage::Start, _) => EmptyStateView::Ask(FsRequestView::EntryKind(events_path)),
        (EmptyStateStage::AwaitingEventsKind, FsAnswerView::Kind(EntryKind::File)) => EmptyStateView::Ask(
            FsRequestView::ReadBounded(events_path),
        ),
        (EmptyStateStage::AwaitingEventsKind, FsAnswerView::Kind(EntryKind::NotFound)) => EmptyStateView::Ask(
            FsRequestView::EntryKind(spec_cgroup_dir(root, cgroup)),
        ),
        (EmptyStateStage::AwaitingDirectoryKind, FsAnswerView::Kind(EntryKind::NotFound)) => EmptyStateView::Finish(
            Ok(CgroupEmptyState::Absent),
        ),
        (EmptyStateStage::AwaitingEvents, FsAnswerView::Text(Err(e))) => EmptyStateView::Finish(Err(e)),
        (EmptyStateStage::AwaitingEvents, FsAnswerView::Text(Ok(text))) => match spec_parse_populated(
            utf8_bytes(text),
        ) {
            None => EmptyStateView::Finish(Err(PayloadScopeError::InvalidMembership)),
            Some(v) => if v != 0 {
                EmptyStateView::Finish(Err(PayloadScopeError::BoundaryNotEmpty))
            } else {
                EmptyStateView::Ask(FsRequestView::ReadBounded(procs_path))
            },
        },
        (EmptyStateStage::AwaitingProcs, FsAnswerView::Text(Err(e))) => EmptyStateView::Finish(Err(e)),
        (EmptyStateStage::AwaitingProcs, FsAnswerView::Text(Ok(members))) => if str_trim(members).len()
            != 0 {
            EmptyStateView::Finish(Err(PayloadScopeError::BoundaryNotEmpty))
        } else {
            EmptyStateView::Finish(Ok(CgroupEmptyState::PresentEmpty))
        },
        _ => EmptyStateView::Finish(Err(PayloadScopeError::InvalidMembership)),
    }
    }
}

pub fn empty_state_step(root: &[u8], control_group: &str, stage: EmptyStateStage, answer: &FsAnswer) -> (r:
    EmptyStateNext)
    ensures
        r@ == spec_empty_state_step(root@, utf8_bytes(control_group@), stage, answer@),
{
    let directory = match cgroup_dir_under(root, control_group) {
        Ok(p) => p,
        Err(e) => {
            return EmptyStateNext::Finish(Err(e));
        },
    };
    let events_name = lit_cgroup_events_vec();
    let procs_name = lit_cgroup_procs_vec();
    match (stage, answer) {
        (EmptyStateStage::Start, _) => EmptyStateNext::Ask(
            FsRequest::EntryKind(join_path(directory.as_slice(), events_name.as_slice())),
        ),
        (EmptyStateStage::AwaitingEventsKind, FsAnswer::Kind(EntryKind::File)) => EmptyStateNext::Ask(
            FsRequest::ReadBounded(join_path(directory.as_slice(), events_name.as_slice())),
        ),
        (EmptyStateStage::AwaitingEventsKind, FsAnswer::Kind(EntryKind::NotFound)) => EmptyStateNext::Ask(
            FsRequest::EntryKind(directory),
        ),
        (EmptyStateStage::AwaitingDirectoryKind, FsAnswer::Kind(EntryKind::NotFound)) => EmptyStateNext::Finish(
            Ok(CgroupEmptyState::Absent),
        ),
        (EmptyStateStage::AwaitingEvents, FsAnswer::Text(Err(e))) => EmptyStateNext::Finish(Err(*e)),
        (EmptyStateStage::AwaitingEvents, FsAnswer::Text(Ok(text))) => match parse_populated(text.as_str()) {
            Err(e) => EmptyStateNext::Finish(Err(e)),
            Ok(0u8) => EmptyStateNext::Ask(
                FsRequest::ReadBounded(join_path(directory.as_slice(), procs_name.as_slice())),
            ),
            Ok(_) => EmptyStateNext::Finish(Err(PayloadScopeError::BoundaryNotEmpty)),
        },
        (EmptyStateStage::AwaitingProcs, FsAnswer::Text(Err(e))) => EmptyStateNext::Finish(Err(*e)),
        (EmptyStateStage::AwaitingProcs, FsAnswer::Text(Ok(members))) => if !trim_str(members.as_str()).is_empty() {
            EmptyStateNext::Finish(Err(PayloadScopeError::BoundaryNotEmpty))
        } else {
            EmptyStateNext::Finish(Ok(CgroupEmptyState::PresentEmpty))
        },
        _ => EmptyStateNext::Finish(Err(PayloadScopeError::InvalidMembership)),
    }
}

/// Answers a question of the empty-state read.
fn ask<F: CgroupFs>(fs: &F, request: &FsRequest) -> (r: FsAnswer)
    ensures
        request is EntryKind ==> r is Kind,
        request is ReadBounded ==> r is Text,
{
    match request {
        FsRequest::EntryKind(path) => FsAnswer::Kind(fs.entry_kind(path.as_slice())),
        FsRequest::ReadBounded(path) => FsAnswer::Text(fs.read_bounded(path.as_slice())),
    }
}

/// Reads whether the cgroup is gone, or present without any process:
/// `cgroup.events` must say `populated 0` and `cgroup.procs` must be blank.
/// A missing cgroup directory, and only that, is `Absent`. Whatever the
/// file system answered, the result is `spec_empty_state_outcome` of it.
/// It asks the file system exactly what `empty_state_step` asks for, at the
/// paths it gives.
pub fn read_cgroup_empty_state_at<F: CgroupFs>(fs: &F, root: &[u8], control_group: &str) -> (r:
    Result<CgroupEmptyState, PayloadScopeError>)
    ensures
        !spec_cgroup_path_ok(utf8_bytes(control_group@)) ==> r == Err::<
            CgroupEmptyState,
            PayloadScopeError,
        >(PayloadScopeError::InvalidIdentity),
        exists|
            events_kind: EntryKind,
            directory_kind: EntryKind,
            events: Result<Seq<char>, PayloadScopeError>,
            procs: Result<Seq<char>, PayloadScopeError>,
        |
            r == #[trigger] spec_empty_state_outcome(
                utf8_bytes(control_group@),
                events_kind,
                directory_kind,
                events,
                procs,
            ),
{
    let ghost cg = utf8_bytes(control_group@);
    let ghost no_text: Result<Seq<char>, PayloadScopeError> = Err(PayloadScopeError::InvalidMembership);
    let nothing = FsAnswer::Nothing;
    let events_kind = match empty_state_step(root, control_group, EmptyStateStage::Start, &nothing) {
        EmptyStateNext::Ask(request) => ask(fs, &request),
        EmptyStateNext::Finish(r) => {
            assert(r == spec_empty_state_outcome(cg, EntryKind::File, EntryKind::File, no_text, no_text));
            return r;
        },
    };
    let ghost k1 = match events_kind@ {
        FsAnswerView::Kind(k) => k,
        _ => EntryKind::Unreadable,
    };
    let (stage, second) = match empty_state_step(root, control_group, EmptyStateStage::AwaitingEventsKind, &events_kind) {
        EmptyStateNext::Ask(FsRequest::EntryKind(path)) => (
            EmptyStateStage::AwaitingDirectoryKind,
            FsAnswer::Kind(fs.entry_kind(path.as_slice())),
        ),
        EmptyStateNext::Ask(FsRequest::ReadBounded(path)) => (
            EmptyStateStage::AwaitingEvents,
            FsAnswer::Text(fs.read_bounded(path.as_slice())),
        ),
        EmptyStateNext::Finish(r) => {
            assert(r == spec_empty_state_outcome(cg, k1, EntryKind::File, no_text, no_text));
            return r;
        },
    };
    if stage == EmptyStateStage::AwaitingDirectoryKind {
        let ghost k2 = match second@ {
            FsAnswerView::Kind(k) => k,
            _ => EntryKind::Unreadable,
        };
        return match empty_state_step(root, control_group, EmptyStateStage::AwaitingDirectoryKind, &second) {
            EmptyStateNext::Finish(r) => {
                assert(r == spec_empty_state_outcome(cg, k1, k2, no_text, no_text));
                r
            },
            _ => Err(PayloadScopeError::InvalidMembership),
        };
    }
    let ghost events = match second@ {
        FsAnswerView::Text(t) => t,
        _ => no_text,
    };
    let procs = match empty_state_step(root, control_group, EmptyStateStage::AwaitingEvents, &second) {
        EmptyStateNext::Ask(request) => ask(fs, &request),
        EmptyStateNext::Finish(r) => {
            assert(r == spec_empty_state_outcome(cg, k1, EntryKind::File, events, no_text));
            return r;
        },
    };
    let ghost members = match procs@ {
        FsAnswerView::Text(t) => t,
        _ => no_text,
    };
    match empty_state_step(root, control_group, EmptyStateStage::AwaitingProcs, &procs) {
        EmptyStateNext::Finish(r) => {
            assert(r == spec_empty_state_outcome(cg, k1, EntryKind::File, events, members));
            r
        },
        _ => Err(PayloadScopeError::InvalidMembership),
    }
}

/// How the invocation-bound transport reports a failed read of the
/// cgroup's state.
pub fn boundary_state_error(error: PayloadScopeError) -> (r: InvocationBackendError)
    ensures
        r == (match error {
            PayloadScopeError::BoundaryNotEmpty => InvocationBackendError::BoundaryNotEmpty,
            PayloadScopeError::InvalidIdentity => InvocationBackendError::CgroupAbsent,
            _ => InvocationBackendError::CgroupIo,
        }),
{
    match error {
        PayloadScopeError::BoundaryNotEmpty => InvocationBackendError::BoundaryNotEmpty,
        PayloadScopeError::InvalidIdentity => InvocationBackendError::CgroupAbsent,
        _ => InvocationBackendError::CgroupIo,
    }
}

} // verus!
