//! Byte-level text toolkit: comparisons, decimal rendering, and the line and
//! field structure of the small kernel text files the worker reads.
use vstd::prelude::*;
use vstd::utf8::*;

verus! {

/// ASCII whitespace as `str::split_ascii_whitespace` understands it.
pub open spec fn is_ascii_ws(b: u8) -> bool {
    b == 32u8 || b == 9u8 || b == 10u8 || b == 12u8 || b == 13u8
}

pub open spec fn is_digit(b: u8) -> bool {
    48u8 <= b <= 57u8
}

pub open spec fn starts_with(s: Seq<u8>, prefix: Seq<u8>) -> bool {
    prefix.len() <= s.len() && s.subrange(0, prefix.len() as int) == prefix
}

pub open spec fn ends_with(s: Seq<u8>, suffix: Seq<u8>) -> bool {
    suffix.len() <= s.len() && s.subrange(s.len() - suffix.len(), s.len() as int) == suffix
}

/// True when the two-byte sequence `a b` occurs somewhere in `s`.
pub open spec fn contains_pair(s: Seq<u8>, a: u8, b: u8) -> bool {
    exists|i: int| 0 <= i && i + 1 < s.len() && #[trigger] s[i] == a && s[i + 1] == b
}

/// Decimal rendering of a natural number, most significant digit first.
pub open spec fn decimal(n: nat) -> Seq<u8>
    decreases n,
{
    if n < 10 {
        seq![(48 + n) as u8]
    } else {
        decimal(n / 10).push((48 + n % 10) as u8)
    }
}

pub fn bytes_equal(a: &[u8], b: &[u8]) -> (r: bool)
    ensures
        r == (a@ == b@),
{
    if a.len() != b.len() {
        return false;
    }
    let mut i: usize = 0;
    while i < a.len()
        invariant
            i <= a.len(),
            a.len() == b.len(),
            forall|j: int| 0 <= j < i ==> a@[j] == b@[j],
        decreases a.len() - i,
    {
        if a[i] != b[i] {
            assert(a@[i as int] != b@[i as int]);
            return false;
        }
        i += 1;
    }
    assert(a@ =~= b@);
    true
}

pub fn has_prefix(s: &[u8], prefix: &[u8]) -> (r: bool)
    ensures
        r == starts_with(s@, prefix@),
{
    if prefix.len() > s.len() {
        return false;
    }
    let mut i: usize = 0;
    while i < prefix.len()
        invariant
            i <= prefix.len(),
            prefix.len() <= s.len(),
            forall|j: int| 0 <= j < i ==> s@[j] == prefix@[j],
        decreases prefix.len() - i,
    {
        if s[i] != prefix[i] {
            assert(s@.subrange(0, prefix@.len() as int)[i as int] != prefix@[i as int]);
            return false;
        }
        i += 1;
    }
    assert(s@.subrange(0, prefix@.len() as int) =~= prefix@);
    true
}

pub fn has_suffix(s: &[u8], suffix: &[u8]) -> (r: bool)
    ensures
        r == ends_with(s@, suffix@),
{
    if suffix.len() > s.len() {
        return false;
    }
    let offset = s.len() - suffix.len();
    let mut i: usize = 0;
    while i < suffix.len()
        invariant
            i <= suffix.len(),
            offset + suffix.len() == s.len(),
            forall|j: int| 0 <= j < i ==> s@[offset + j] == suffix@[j],
        decreases suffix.len() - i,
    {
        if s[offset + i] != suffix[i] {
            assert(s@.subrange(offset as int, s@.len() as int)[i as int] != suffix@[i as int]);
            return false;
        }
        i += 1;
    }
    assert(s@.subrange(offset as int, s@.len() as int) =~= suffix@);
    true
}

pub fn has_pair(s: &[u8], a: u8, b: u8) -> (r: bool)
    ensures
        r == contains_pair(s@, a, b),
{
    let mut i: usize = 0;
    while i < s.len() && i + 1 < s.len()
        invariant
            i <= s.len(),
            forall|j: int| 0 <= j < i && j + 1 < s@.len() ==> !(#[trigger] s@[j] == a && s@[j + 1] == b),
        decreases s.len() - i,
    {
        if s[i] == a && s[i + 1] == b {
            return true;
        }
        i += 1;
    }
    false
}

/// Appends the decimal rendering of `n` to `out`.
pub fn push_decimal(out: &mut Vec<u8>, n: u32)
    ensures
        final(out)@ == old(out)@ + decimal(n as nat),
    decreases n,
{
    if n < 10 {
        out.push(48u8 + n as u8);
        assert(decimal(n as nat) =~= seq![(48 + n) as u8]);
    } else {
        push_decimal(out, n / 10);
        out.push(48u8 + (n % 10) as u8);
        assert(decimal(n as nat) == decimal((n / 10) as nat).push((48 + n % 10) as u8));
    }
}

pub fn append_bytes(out: &mut Vec<u8>, more: &[u8])
    ensures
        final(out)@ == old(out)@ + more@,
{
    let mut i: usize = 0;
    while i < more.len()
        invariant
            i <= more.len(),
            out@ == old(out)@ + more@.subrange(0, i as int),
        decreases more.len() - i,
    {
        out.push(more[i]);
        assert(more@.subrange(0, i + 1) =~= more@.subrange(0, i as int).push(more@[i as int]));
        i += 1;
    }
    assert(more@.subrange(0, more@.len() as int) =~= more@);
}


/// Index of the first newline in `s`, or `s.len()` when there is none.
pub open spec fn newline_index(s: Seq<u8>) -> int
    decreases s.len(),
{
    if s.len() == 0 {
        0
    } else if s[0] == 10u8 {
        0
    } else {
        1 + newline_index(s.drop_first())
    }
}

pub proof fn lemma_newline_index(s: Seq<u8>)
    ensures
        0 <= newline_index(s) <= s.len(),
        newline_index(s) < s.len() ==> s[newline_index(s)] == 10u8,
        forall|j: int| 0 <= j < newline_index(s) ==> s[j] != 10u8,
    decreases s.len(),
{
    if s.len() > 0 && s[0] != 10u8 {
        lemma_newline_index(s.drop_first());
        assert forall|j: int| 0 <= j < newline_index(s) implies s[j] != 10u8 by {
            if j > 0 {
                assert(s[j] == s.drop_first()[j - 1]);
            }
        }
    }
}

pub proof fn lemma_newline_index_at(s: Seq<u8>, k: int)
    requires
        0 <= k <= s.len(),
        k < s.len() ==> s[k] == 10u8,
        forall|j: int| 0 <= j < k ==> s[j] != 10u8,
    ensures
        newline_index(s) == k,
    decreases s.len(),
{
    if s.len() > 0 && k > 0 {
        assert(s[0] != 10u8);
        assert forall|j: int| 0 <= j < k - 1 implies s.drop_first()[j] != 10u8 by {
            assert(s.drop_first()[j] == s[j + 1]);
        }
        lemma_newline_index_at(s.drop_first(), k - 1);
    }
}

/// A line as `str::lines` yields it: a carriage return is dropped only
/// where it precedes the line's newline.
pub open spec fn strip_cr(line: Seq<u8>) -> Seq<u8> {
    if line.len() > 0 && line.last() == 13u8 {
        line.drop_last()
    } else {
        line
    }
}

/// The lines of `s`, as `str::lines` splits them.
pub open spec fn spec_lines(s: Seq<u8>) -> Seq<Seq<u8>>
    decreases s.len(),
{
    if s.len() == 0 {
        seq![]
    } else {
        let k = newline_index(s);
        if 0 <= k < s.len() {
            seq![strip_cr(s.subrange(0, k))] + spec_lines(s.subrange(k + 1, s.len() as int))
        } else {
            seq![s]
        }
    }
}

/// A half-open byte range of some text.
pub struct Span {
    pub start: usize,
    pub end: usize,
}

pub open spec fn span_bytes(s: Seq<u8>, span: Span) -> Seq<u8> {
    s.subrange(span.start as int, span.end as int)
}

pub open spec fn spans_are(s: Seq<u8>, spans: Seq<Span>, parts: Seq<Seq<u8>>) -> bool {
    &&& spans.len() == parts.len()
    &&& forall|i: int|
        0 <= i < spans.len() ==> {
            &&& (#[trigger] spans[i]).start <= spans[i].end <= s.len()
            &&& span_bytes(s, spans[i]) == parts[i]
        }
}

/// Splits `text` into the spans of its lines.
pub fn line_spans(text: &[u8]) -> (spans: Vec<Span>)
    ensures
        spans_are(text@, spans@, spec_lines(text@)),
        forall|i: int|
            0 <= i < spans@.len() ==> ((#[trigger] spans@[i]).end == text@.len() || text@[
                spans@[i].end as int] == 10u8 || text@[spans@[i].end as int] == 13u8),
{
    let mut spans: Vec<Span> = Vec::new();
    let mut start: usize = 0;
    let mut i: usize = 0;
    let ghost s = text@;
    assert(s.subrange(0, s.len() as int) =~= s);
    assert(spec_lines_prefix(s, spans@) =~= Seq::<Seq<u8>>::empty());
    while i < text.len()
        invariant
            start <= i <= text.len(),
            s == text@,
            forall|j: int| start <= j < i ==> s[j] != 10u8,
            spec_lines(s) == spec_lines_prefix(s, spans@) + spec_lines(s.subrange(start as int, s.len() as int)),
            spans_are(s, spans@, spec_lines_prefix(s, spans@)),
            forall|m: int|
                0 <= m < spans@.len() ==> ((#[trigger] spans@[m]).end == s.len() || s[
                    spans@[m].end as int] == 10u8 || s[spans@[m].end as int] == 13u8),
        decreases text.len() - i,
    {
        if text[i] == 10u8 {
            let ghost rest = s.subrange(start as int, s.len() as int);
            proof {
                assert forall|j: int| 0 <= j < i - start implies rest[j] != 10u8 by {
                    assert(rest[j] == s[start + j]);
                }
                lemma_newline_index_at(rest, (i - start) as int);
                assert(rest.subrange(0, (i - start) as int) =~= s.subrange(start as int, i as int));
                assert(rest.subrange((i - start) + 1, rest.len() as int) =~= s.subrange(
                    i + 1,
                    s.len() as int,
                ));
            }
            let end = if i > start && text[i - 1] == 13u8 {
                i - 1
            } else {
                i
            };
            proof {
                let line = s.subrange(start as int, i as int);
                if i > start && s[i - 1] == 13u8 {
                    assert(strip_cr(line) =~= s.subrange(start as int, end as int));
                } else {
                    assert(strip_cr(line) =~= s.subrange(start as int, end as int));
                }
            }
            let ghost old_spans = spans@;
            spans.push(Span { start, end });
            proof {
                lemma_spec_lines_prefix_push(s, old_spans, Span { start, end });
            }
            start = i + 1;
        }
        i += 1;
    }
    if start < text.len() {
        let ghost rest = s.subrange(start as int, s.len() as int);
        proof {
            assert forall|j: int| 0 <= j < rest.len() implies rest[j] != 10u8 by {
                assert(rest[j] == s[start + j]);
            }
            lemma_newline_index_at(rest, rest.len() as int);
            assert(spec_lines(rest) == seq![rest]);
        }
        let ghost old_spans = spans@;
        spans.push(Span { start, end: text.len() });
        proof {
            lemma_spec_lines_prefix_push(s, old_spans, Span { start, end: text.len() });
        }
    } else {
        assert(s.subrange(start as int, s.len() as int) =~= Seq::<u8>::empty());
    }
    assert(spec_lines(s) =~= spec_lines_prefix(s, spans@));
    spans
}

/// The byte contents of a list of spans.
pub open spec fn spec_lines_prefix(s: Seq<u8>, spans: Seq<Span>) -> Seq<Seq<u8>> {
    Seq::new(spans.len(), |i: int| span_bytes(s, spans[i]))
}

pub proof fn lemma_spec_lines_prefix_push(s: Seq<u8>, spans: Seq<Span>, span: Span)
    ensures
        spec_lines_prefix(s, spans.push(span)) =~= spec_lines_prefix(s, spans).push(
            span_bytes(s, span),
        ),
{
}


/// Index of the first ASCII whitespace byte in `s`, or `s.len()`.
pub open spec fn ws_index(s: Seq<u8>) -> int
    decreases s.len(),
{
    if s.len() == 0 {
        0
    } else if is_ascii_ws(s[0]) {
        0
    } else {
        1 + ws_index(s.drop_first())
    }
}

pub proof fn lemma_ws_index_at(s: Seq<u8>, k: int)
    requires
        0 <= k <= s.len(),
        k < s.len() ==> is_ascii_ws(s[k]),
        forall|j: int| 0 <= j < k ==> !is_ascii_ws(s[j]),
    ensures
        ws_index(s) == k,
    decreases s.len(),
{
    if s.len() > 0 && k > 0 {
        assert(!is_ascii_ws(s[0]));
        assert forall|j: int| 0 <= j < k - 1 implies !is_ascii_ws(s.drop_first()[j]) by {
            assert(s.drop_first()[j] == s[j + 1]);
        }
        lemma_ws_index_at(s.drop_first(), k - 1);
    }
}

/// The fields of `s`, as `str::split_ascii_whitespace` yields them.
pub open spec fn spec_fields(s: Seq<u8>) -> Seq<Seq<u8>>
    decreases s.len(),
{
    if s.len() == 0 {
        seq![]
    } else if is_ascii_ws(s[0]) {
        spec_fields(s.drop_first())
    } else {
        let k = ws_index(s);
        if 1 <= k <= s.len() {
            seq![s.subrange(0, k)] + spec_fields(s.subrange(k, s.len() as int))
        } else {
            seq![s]
        }
    }
}

/// Splits `text` into the spans of its whitespace-separated fields.
pub fn field_spans(text: &[u8]) -> (spans: Vec<Span>)
    ensures
        spans_are(text@, spans@, spec_fields(text@)),
{
    let mut spans: Vec<Span> = Vec::new();
    let mut pos: usize = 0;
    let ghost s = text@;
    assert(s.subrange(0, s.len() as int) =~= s);
    assert(spec_lines_prefix(s, spans@) =~= Seq::<Seq<u8>>::empty());
    while pos < text.len()
        invariant
            pos <= text.len(),
            s == text@,
            spec_fields(s) == spec_lines_prefix(s, spans@) + spec_fields(
                s.subrange(pos as int, s.len() as int),
            ),
            spans_are(s, spans@, spec_lines_prefix(s, spans@)),
        decreases text.len() - pos,
    {
        let ghost rest = s.subrange(pos as int, s.len() as int);
        let b = text[pos];
        if b == 32u8 || b == 9u8 || b == 10u8 || b == 12u8 || b == 13u8 {
            assert(rest.drop_first() =~= s.subrange(pos + 1, s.len() as int));
            pos += 1;
        } else {
            let mut j: usize = pos + 1;
            while j < text.len() && !(text[j] == 32u8 || text[j] == 9u8 || text[j] == 10u8
                || text[j] == 12u8 || text[j] == 13u8)
                invariant
                    pos < j <= text.len(),
                    s == text@,
                    forall|m: int| pos <= m < j ==> !is_ascii_ws(s[m]),
                decreases text.len() - j,
            {
                j += 1;
            }
            proof {
                assert forall|m: int| 0 <= m < j - pos implies !is_ascii_ws(rest[m]) by {
                    assert(rest[m] == s[pos + m]);
                }
                lemma_ws_index_at(rest, (j - pos) as int);
                assert(rest.subrange(0, (j - pos) as int) =~= s.subrange(pos as int, j as int));
                assert(rest.subrange((j - pos) as int, rest.len() as int) =~= s.subrange(
                    j as int,
                    s.len() as int,
                ));
            }
            let ghost old_spans = spans@;
            spans.push(Span { start: pos, end: j });
            proof {
                lemma_spec_lines_prefix_push(s, old_spans, Span { start: pos, end: j });
            }
            pos = j;
        }
    }
    assert(s.subrange(pos as int, s.len() as int) =~= Seq::<u8>::empty());
    assert(spec_fields(s) =~= spec_lines_prefix(s, spans@));
    spans
}

/// Numeric value of a run of decimal digits.
pub open spec fn digits_value(d: Seq<u8>) -> nat
    decreases d.len(),
{
    if d.len() == 0 {
        0
    } else {
        digits_value(d.drop_last()) * 10 + (d.last() - 48) as nat
    }
}

pub open spec fn all_digits(d: Seq<u8>) -> bool {
    forall|i: int| 0 <= i < d.len() ==> is_digit(#[trigger] d[i])
}

/// The digits of an unsigned number as `str::parse` reads it: one optional
/// leading `+`, then the digits.
pub open spec fn unsigned_digits(v: Seq<u8>) -> Seq<u8> {
    if v.len() > 0 && v[0] == 43u8 {
        v.drop_first()
    } else {
        v
    }
}

/// The value `str::parse` gives an unsigned integer type whose maximum is
/// `max`, or `None` where it refuses the text.
pub open spec fn spec_parse_unsigned(v: Seq<u8>, max: nat) -> Option<nat> {
    let d = unsigned_digits(v);
    if d.len() > 0 && all_digits(d) && digits_value(d) <= max {
        Some(digits_value(d))
    } else {
        None
    }
}

pub proof fn lemma_digits_value_monotonic(d: Seq<u8>, k: int)
    requires
        all_digits(d),
        0 <= k <= d.len(),
    ensures
        digits_value(d.subrange(0, k)) <= digits_value(d),
    decreases d.len() - k,
{
    if k < d.len() {
        lemma_digits_value_monotonic(d, k + 1);
        assert(d.subrange(0, k + 1).drop_last() =~= d.subrange(0, k));
    } else {
        assert(d.subrange(0, k) =~= d);
    }
}

/// Parses decimal text the way `str::parse` does for an unsigned type
/// whose maximum is `max`.
pub fn parse_unsigned(v: &[u8], max: u32) -> (r: Option<u32>)
    ensures
        match spec_parse_unsigned(v@, max as nat) {
            Some(n) => r == Some(n as u32),
            None => r is None,
        },
{
    let start: usize = if v.len() > 0 && v[0] == 43u8 {
        1
    } else {
        0
    };
    let ghost d = unsigned_digits(v@);
    assert(d =~= v@.subrange(start as int, v@.len() as int));
    if start >= v.len() {
        return None;
    }
    let mut acc: u64 = 0;
    let mut i: usize = start;
    while i < v.len()
        invariant
            start <= i <= v.len(),
            d == v@.subrange(start as int, v@.len() as int),
            d == unsigned_digits(v@),
            acc == digits_value(d.subrange(0, i - start)),
            acc <= max,
            forall|m: int| 0 <= m < i - start ==> is_digit(d[m]),
        decreases v.len() - i,
    {
        let b = v[i];
        if b < 48u8 || b > 57u8 {
            assert(!is_digit(d[i - start]));
            assert(!all_digits(d));
            return None;
        }
        let ghost prefix = d.subrange(0, i + 1 - start);
        assert(prefix.drop_last() =~= d.subrange(0, i - start));
        acc = acc * 10 + (b - 48u8) as u64;
        assert(acc == digits_value(prefix));
        if acc > max as u64 {
            proof {
                if all_digits(d) {
                    lemma_digits_value_monotonic(d, i + 1 - start);
                }
            }
            return None;
        }
        i += 1;
    }
    assert(d.subrange(0, d.len() as int) =~= d);
    Some(acc as u32)
}


/// Bytes of the UTF-8 encoding of a character sequence.
pub open spec fn utf8_bytes(chars: Seq<char>) -> Seq<u8> {
    encode_utf8(chars)
}

/// An ASCII byte of valid UTF-8 starts a character, and so does the byte after it.
pub proof fn lemma_ascii_boundary(bytes: Seq<u8>, i: int)
    requires
        valid_utf8(bytes),
        0 <= i < bytes.len(),
        bytes[i] <= 0x7fu8,
    ensures
        is_char_boundary(bytes, i),
        is_char_boundary(bytes, i + 1),
    decreases bytes.len(),
{
    let l = length_of_first_scalar(bytes);
    let rest = pop_first_scalar(bytes);
    assert(valid_first_scalar(bytes) && valid_utf8(rest));
    if i == 0 {
        assert(l == 1);
        assert(is_char_boundary(rest, 0));
    } else if i < l {
        assert(is_continuation_byte(bytes[i]));
    } else {
        assert(rest[i - l] == bytes[i]);
        lemma_ascii_boundary(rest, i - l);
    }
}

/// The bytes strictly between two ASCII delimiters of valid UTF-8 (or the
/// text's ends) are valid UTF-8.
pub proof fn lemma_valid_between_ascii(bytes: Seq<u8>, a: int, b: int)
    requires
        valid_utf8(bytes),
        0 <= a <= b <= bytes.len(),
        a == 0 || bytes[a - 1] <= 0x7fu8,
        b == bytes.len() || bytes[b] <= 0x7fu8,
    ensures
        valid_utf8(bytes.subrange(a, b)),
{
    broadcast use is_char_boundary_start_end_of_seq;
    if a > 0 {
        lemma_ascii_boundary(bytes, a - 1);
    }
    valid_utf8_split(bytes, a);
    let tail = bytes.subrange(a, bytes.len() as int);
    if b < bytes.len() {
        assert(tail[b - a] == bytes[b]);
        lemma_ascii_boundary(tail, b - a);
    }
    valid_utf8_split(tail, b - a);
    assert(tail.subrange(0, b - a) =~= bytes.subrange(a, b));
}

/// `String::from_utf8`: a string exactly when the bytes are valid UTF-8,
/// and then the string holds the characters those bytes encode.
#[verifier::external_body]
fn string_from_utf8(bytes: Vec<u8>) -> (r: Option<String>)
    ensures
        r is Some <==> valid_utf8(bytes@),
        r matches Some(s) ==> s@ == decode_utf8(bytes@),
{
    String::from_utf8(bytes).ok()
}

/// A character with the Unicode `White_Space` property, which is what
/// `char::is_whitespace` tests.
pub open spec fn is_unicode_white_space(c: char) -> bool {
    let n = c as u32;
    ||| 9 <= n <= 13
    ||| n == 32
    ||| n == 0x85
    ||| n == 0xa0
    ||| n == 0x1680
    ||| 0x2000 <= n <= 0x200a
    ||| n == 0x2028
    ||| n == 0x2029
    ||| n == 0x202f
    ||| n == 0x205f
    ||| n == 0x3000
}

/// A text without its leading white space.
pub open spec fn trim_white_start(text: Seq<char>) -> Seq<char>
    decreases text.len(),
{
    if text.len() > 0 && is_unicode_white_space(text[0]) {
        trim_white_start(text.subrange(1, text.len() as int))
    } else {
        text
    }
}

/// A text without its trailing white space.
pub open spec fn trim_white_end(text: Seq<char>) -> Seq<char>
    decreases text.len(),
{
    if text.len() > 0 && is_unicode_white_space(text[text.len() - 1]) {
        trim_white_end(text.subrange(0, text.len() - 1))
    } else {
        text
    }
}

/// What `str::trim` leaves of a text: the text without its leading and
/// trailing Unicode white space.
pub open spec fn str_trim(text: Seq<char>) -> Seq<char> {
    trim_white_end(trim_white_start(text))
}

/// `str::trim`: the text without the leading and trailing characters for
/// which `char::is_whitespace` holds.
#[verifier::external_body]
pub(crate) fn trim_str(text: &str) -> (r: &str)
    ensures
        r@ == str_trim(text@),
{
    text.trim()
}

/// A string whose UTF-8 encoding is `bytes`, where the bytes are valid UTF-8.
pub fn string_from_bytes(bytes: Vec<u8>) -> (r: Option<String>)
    ensures
        r is Some <==> valid_utf8(bytes@),
        r matches Some(s) ==> utf8_bytes(s@) == bytes@,
{
    let ghost b = bytes@;
    let r = string_from_utf8(bytes);
    proof {
        if valid_utf8(b) {
            decode_utf8_encode_utf8(b);
        }
    }
    r
}

/// A string holding ASCII bytes.
pub fn ascii_string(bytes: Vec<u8>) -> (r: String)
    requires
        forall|i: int| 0 <= i < bytes@.len() ==> bytes@[i] <= 0x7fu8,
    ensures
        utf8_bytes(r@) == bytes@,
{
    let ghost b = bytes@;
    proof {
        lemma_ascii_valid(b);
    }
    match string_from_bytes(bytes) {
        Some(s) => s,
        None => {
            assert(false);
            String::new()
        },
    }
}

pub proof fn lemma_ascii_valid(b: Seq<u8>)
    requires
        forall|i: int| 0 <= i < b.len() ==> b[i] <= 0x7fu8,
    ensures
        valid_utf8(b),
    decreases b.len(),
{
    if b.len() > 0 {
        let rest = pop_first_scalar(b);
        assert(length_of_first_scalar(b) == 1);
        assert forall|i: int| 0 <= i < rest.len() implies rest[i] <= 0x7fu8 by {
            assert(rest[i] == b[i + 1]);
        }
        lemma_ascii_valid(rest);
    }
}

/// The UTF-8 bytes of a string.
pub fn str_bytes(s: &str) -> (r: &[u8])
    ensures
        r@ == utf8_bytes(s@),
{
    s.as_bytes()
}

/// The UTF-8 bytes of an owned string.
pub fn string_bytes(s: &String) -> (r: &[u8])
    ensures
        r@ == utf8_bytes(s@),
{
    s.as_str().as_bytes()
}


pub proof fn lemma_utf8_bytes_injective(a: Seq<char>, b: Seq<char>)
    ensures
        utf8_bytes(a) == utf8_bytes(b) <==> a == b,
{
    encode_utf8_decode_utf8(a);
    encode_utf8_decode_utf8(b);
}

/// Equality of two texts.
pub fn text_equal(a: &str, b: &str) -> (r: bool)
    ensures
        r == (a@ == b@),
{
    let r = bytes_equal(str_bytes(a), str_bytes(b));
    proof {
        lemma_utf8_bytes_injective(a@, b@);
    }
    r
}

/// True when `s` holds the byte `b`.
pub fn has_byte(s: &[u8], b: u8) -> (r: bool)
    ensures
        r == s@.contains(b),
{
    let mut i: usize = 0;
    while i < s.len()
        invariant
            i <= s.len(),
            forall|j: int| 0 <= j < i ==> s@[j] != b,
        decreases s.len() - i,
    {
        if s[i] == b {
            assert(s@[i as int] == b);
            return true;
        }
        i += 1;
    }
    false
}

} // verus!
