//! Fixed-width decimal ASCII encoding and decoding of integers.
//!
//! The wire format writes every numeric field as zero-padded decimal digits.
//! This module gives the encoding an exact specification and proves that
//! decoding inverts it, which carries the round-trip property of the whole
//! message codec.

use vstd::prelude::*;
use vstd::string::StringExecFns;

verus! {

/// ASCII code of the digit zero.
pub const DIGIT_ZERO: u8 = 48;

/// Ten to the power `w`.
pub open spec fn pow10(w: nat) -> nat
    decreases w,
{
    if w == 0 {
        1
    } else {
        10 * pow10((w - 1) as nat)
    }
}

/// Number of decimal digits of `v` (one digit for zero).
pub open spec fn spec_num_digits(v: nat) -> nat
    decreases v,
{
    if v < 10 {
        1
    } else {
        1 + spec_num_digits(v / 10)
    }
}

/// The `w` low-order decimal digits of `v`, most significant first, as
/// ASCII bytes.
pub open spec fn spec_digits(v: nat, w: nat) -> Seq<u8>
    decreases w,
{
    if w == 0 {
        Seq::empty()
    } else {
        spec_digits(v / 10, (w - 1) as nat).push((v % 10 + DIGIT_ZERO) as u8)
    }
}

/// `v` in decimal, zero-padded on the left to at least `w` bytes; wider than
/// `w` exactly when the value does not fit in `w` digits.
pub open spec fn spec_zero_pad(v: nat, w: nat) -> Seq<u8> {
    spec_digits(v, spec_pad_width(v, w))
}

/// The width that zero-padding `v` to `w` digits actually produces.
pub open spec fn spec_pad_width(v: nat, w: nat) -> nat {
    if spec_num_digits(v) > w {
        spec_num_digits(v)
    } else {
        w
    }
}

/// Whether every byte of `s` is an ASCII decimal digit.
pub open spec fn spec_is_digits(s: Seq<u8>) -> bool {
    forall|i: int| 0 <= i < s.len() ==> DIGIT_ZERO <= #[trigger] s[i] <= DIGIT_ZERO + 9
}

/// The value of a sequence of ASCII decimal digits, most significant first.
pub open spec fn spec_parse_uint(s: Seq<u8>) -> nat
    decreases s.len(),
{
    if s.len() == 0 {
        0
    } else {
        (spec_parse_uint(s.drop_last()) * 10 + (s.last() - DIGIT_ZERO)) as nat
    }
}

/// A value below `pow10(w)` has at most `w` digits.
pub proof fn lemma_num_digits_bound(v: nat, w: nat)
    requires
        w >= 1,
        v < pow10(w),
    ensures
        spec_num_digits(v) <= w,
    decreases w,
{
    if v < 10 {
    } else {
        assert(pow10(w) == 10 * pow10((w - 1) as nat));
        assert(v / 10 < pow10((w - 1) as nat)) by (nonlinear_arith)
            requires
                v < 10 * pow10((w - 1) as nat),
                v >= 10,
        ;
        assert(w >= 2) by {
            if w == 1 {
                assert(pow10(1nat) == 10);
            }
        }
        lemma_num_digits_bound(v / 10, (w - 1) as nat);
    }
}

/// Zero-padding a value that fits in `w` digits produces exactly `w` bytes.
pub proof fn lemma_zero_pad_width(v: nat, w: nat)
    requires
        w >= 1,
        v < pow10(w),
    ensures
        spec_pad_width(v, w) == w,
        spec_zero_pad(v, w).len() == w,
{
    lemma_num_digits_bound(v, w);
    lemma_digits_len(v, w);
}

/// `spec_digits` produces exactly `w` bytes.
pub proof fn lemma_digits_len(v: nat, w: nat)
    ensures
        spec_digits(v, w).len() == w,
    decreases w,
{
    if w > 0 {
        lemma_digits_len(v / 10, (w - 1) as nat);
    }
}

/// Every byte produced by `spec_digits` is an ASCII digit.
pub proof fn lemma_digits_are_digits(v: nat, w: nat)
    ensures
        spec_is_digits(spec_digits(v, w)),
    decreases w,
{
    if w > 0 {
        lemma_digits_are_digits(v / 10, (w - 1) as nat);
        lemma_digits_len(v / 10, (w - 1) as nat);
        let s = spec_digits(v, w);
        let p = spec_digits(v / 10, (w - 1) as nat);
        assert forall|i: int| 0 <= i < s.len() implies DIGIT_ZERO <= #[trigger] s[i] <= DIGIT_ZERO
            + 9 by {
            if i < p.len() {
                assert(s[i] == p[i]);
            } else {
                assert(s[i] == (v % 10 + DIGIT_ZERO) as u8);
            }
        }
    }
}

/// Decoding inverts encoding: parsing the `w`-digit encoding of a value
/// below `pow10(w)` gives the value back.
pub proof fn lemma_parse_digits(v: nat, w: nat)
    requires
        v < pow10(w),
    ensures
        spec_parse_uint(spec_digits(v, w)) == v,
    decreases w,
{
    if w == 0 {
        assert(v == 0);
    } else {
        let p = spec_digits(v / 10, (w - 1) as nat);
        let s = spec_digits(v, w);
        assert(s == p.push((v % 10 + DIGIT_ZERO) as u8));
        lemma_digits_len(v / 10, (w - 1) as nat);
        assert(s.drop_last() =~= p);
        assert(s.last() == (v % 10 + DIGIT_ZERO) as u8);
        assert(pow10(w) == 10 * pow10((w - 1) as nat));
        assert(v / 10 < pow10((w - 1) as nat)) by (nonlinear_arith)
            requires
                v < 10 * pow10((w - 1) as nat),
        ;
        lemma_parse_digits(v / 10, (w - 1) as nat);
        assert(spec_parse_uint(s) == (v / 10) * 10 + (v % 10));
        assert((v / 10) * 10 + (v % 10) == v) by (nonlinear_arith);
    }
}

/// The number of decimal digits, executable.
pub fn num_digits(v: u64) -> (r: usize)
    ensures
        r == spec_num_digits(v as nat),
        1 <= r <= 20,
    decreases v,
{
    proof {
        lemma_num_digits_u64(v as nat);
    }
    if v < 10 {
        1
    } else {
        1 + num_digits(v / 10)
    }
}

/// Every `u64` has at most twenty decimal digits.
proof fn lemma_num_digits_u64(v: nat)
    requires
        v <= u64::MAX,
    ensures
        spec_num_digits(v) <= 20,
{
    assert(u64::MAX < pow10(20)) by {
        reveal_with_fuel(pow10, 21);
    }
    lemma_num_digits_bound(v, 20);
}

/// Exactly `w` decimal digits of `v`, most significant first.
pub fn format_digits(v: u64, w: usize) -> (r: Vec<u8>)
    ensures
        r@ == spec_digits(v as nat, w as nat),
    decreases w,
{
    if w == 0 {
        Vec::new()
    } else {
        let mut r = format_digits(v / 10, w - 1);
        r.push((v % 10) as u8 + DIGIT_ZERO);
        proof {
            assert(r@ =~= spec_digits(v as nat, w as nat));
        }
        r
    }
}

/// `v` in decimal, zero-padded on the left to at least `width` bytes.
pub fn format_uint(v: u64, width: usize) -> (r: Vec<u8>)
    ensures
        r@ == spec_zero_pad(v as nat, width as nat),
        r@.len() == spec_pad_width(v as nat, width as nat),
    {
    let n = num_digits(v);
    let total = if width > n {
        width
    } else {
        n
    };
    proof {
        lemma_digits_len(v as nat, total as nat);
    }
    format_digits(v, total)
}

/// Parse a slice of ASCII digits into a value, rejecting empty input, any
/// non-digit byte, and values above `u32::MAX`.
pub fn parse_uint(s: &[u8]) -> (r: Option<u32>)
    ensures
        r is Some <==> s@.len() >= 1 && spec_is_digits(s@) && spec_parse_uint(s@) <= u32::MAX,
        r matches Some(v) ==> v == spec_parse_uint(s@),
{
    if s.len() == 0 {
        return None;
    }
    let mut acc: u64 = 0;
    let mut i: usize = 0;
    while i < s.len()
        invariant
            0 <= i <= s@.len(),
            spec_is_digits(s@.take(i as int)),
            acc == spec_parse_uint(s@.take(i as int)),
            acc <= u32::MAX,
        decreases s@.len() - i,
    {
        let b = s[i];
        if b < DIGIT_ZERO || b > DIGIT_ZERO + 9 {
            proof {
                assert(s@[i as int] == b);
                assert(!spec_is_digits(s@));
            }
            return None;
        }
        let d = (b - DIGIT_ZERO) as u64;
        let next = acc * 10 + d;
        proof {
            assert(s@.take(i + 1).drop_last() =~= s@.take(i as int));
            assert(s@.take(i + 1).last() == b);
        }
        if next > u32::MAX as u64 {
            proof {
                if spec_is_digits(s@) {
                    lemma_parse_uint_monotonic(s@, i + 1);
                }
            }
            return None;
        }
        acc = next;
        i = i + 1;
    }
    proof {
        assert(s@.take(i as int) =~= s@);
    }
    Some(acc as u32)
}

/// A sequence of `w` digits always encodes a value below `pow10(w)`.
pub proof fn lemma_parse_uint_bound(s: Seq<u8>)
    requires
        spec_is_digits(s),
    ensures
        spec_parse_uint(s) < pow10(s.len() as nat),
    decreases s.len(),
{
    if s.len() == 0 {
    } else {
        assert(spec_is_digits(s.drop_last()));
        lemma_parse_uint_bound(s.drop_last());
        let p = spec_parse_uint(s.drop_last());
        let d = (s.last() - DIGIT_ZERO) as nat;
        assert(pow10(s.len() as nat) == 10 * pow10((s.len() - 1) as nat));
        assert(p * 10 + d < 10 * pow10((s.len() - 1) as nat)) by (nonlinear_arith)
            requires
                p < pow10((s.len() - 1) as nat),
                d <= 9,
        ;
    }
}

/// Whether a byte is ASCII whitespace, as string trimming sees it.
pub open spec fn spec_is_ws(c: u8) -> bool {
    c == 32 || c == 9 || c == 10 || c == 11 || c == 12 || c == 13
}

/// The bytes with leading whitespace removed.
pub open spec fn spec_trim_start(b: Seq<u8>) -> Seq<u8>
    decreases b.len(),
{
    if b.len() > 0 && spec_is_ws(b[0]) {
        spec_trim_start(b.drop_first())
    } else {
        b
    }
}

/// The bytes with trailing whitespace removed.
pub open spec fn spec_trim_end(b: Seq<u8>) -> Seq<u8>
    decreases b.len(),
{
    if b.len() > 0 && spec_is_ws(b.last()) {
        spec_trim_end(b.drop_last())
    } else {
        b
    }
}

/// The bytes with whitespace removed on both sides.
pub open spec fn spec_trim(b: Seq<u8>) -> Seq<u8> {
    spec_trim_end(spec_trim_start(b))
}

/// A prefix of whitespace followed by a non-whitespace byte (or the end)
/// pins down where trimming from the start lands.
proof fn lemma_trim_start_at(b: Seq<u8>, i: int)
    requires
        0 <= i <= b.len(),
        forall|j: int| 0 <= j < i ==> spec_is_ws(#[trigger] b[j]),
        i < b.len() ==> !spec_is_ws(b[i]),
    ensures
        spec_trim_start(b) == b.skip(i),
    decreases i,
{
    if i == 0 {
        assert(b.skip(0) =~= b);
    } else {
        assert(spec_is_ws(b[0]));
        let c = b.drop_first();
        assert forall|j: int| 0 <= j < i - 1 implies spec_is_ws(#[trigger] c[j]) by {
            assert(c[j] == b[j + 1]);
        }
        assert(i - 1 < c.len() ==> !spec_is_ws(c[i - 1]));
        lemma_trim_start_at(c, i - 1);
        assert(c.skip(i - 1) =~= b.skip(i));
    }
}

/// A suffix of whitespace preceded by a non-whitespace byte (or the start)
/// pins down where trimming from the end lands.
proof fn lemma_trim_end_at(b: Seq<u8>, i: int)
    requires
        0 <= i <= b.len(),
        forall|j: int| i <= j < b.len() ==> spec_is_ws(#[trigger] b[j]),
        i > 0 ==> !spec_is_ws(b[i - 1]),
    ensures
        spec_trim_end(b) == b.take(i),
    decreases b.len() - i,
{
    if i == b.len() {
        if b.len() > 0 && spec_is_ws(b.last()) {
            lemma_trim_end_at(b.drop_last(), i - 1);
        } else {
            assert(b.take(i) =~= b);
        }
    } else {
        assert(spec_is_ws(b.last()));
        let c = b.drop_last();
        lemma_trim_end_at(c, i);
        assert(c.take(i) =~= b.take(i));
    }
}

/// The whitespace-trimmed middle of a byte slice.
pub fn trim_bytes<'a>(b: &'a [u8]) -> (r: &'a [u8])
    ensures
        r@ == spec_trim(b@),
{
    let mut start: usize = 0;
    while start < b.len() && is_ws(b[start])
        invariant
            0 <= start <= b@.len(),
            forall|j: int| 0 <= j < start ==> spec_is_ws(#[trigger] b@[j]),
        decreases b@.len() - start,
    {
        start = start + 1;
    }
    proof {
        lemma_trim_start_at(b@, start as int);
    }
    let mut end: usize = b.len();
    while end > start && is_ws(b[end - 1])
        invariant
            start <= end <= b@.len(),
            forall|j: int| end <= j < b@.len() ==> spec_is_ws(#[trigger] b@[j]),
        decreases end,
    {
        end = end - 1;
    }
    let r = vstd::slice::slice_subrange(b, start, end);
    proof {
        let trimmed = spec_trim_start(b@);
        assert(trimmed == b@.skip(start as int));
        assert forall|j: int| (end - start) <= j < trimmed.len() implies spec_is_ws(
            #[trigger] trimmed[j],
        ) by {
            assert(trimmed[j] == b@[j + start]);
        }
        if end > start {
            assert(trimmed[end - start - 1] == b@[end - 1]);
        }
        lemma_trim_end_at(trimmed, end - start);
        assert(trimmed.take(end - start) =~= b@.subrange(start as int, end as int));
    }
    r
}

/// Whether a byte is ASCII whitespace.
fn is_ws(c: u8) -> (r: bool)
    ensures
        r == spec_is_ws(c),
{
    c == 32 || c == 9 || c == 10 || c == 11 || c == 12 || c == 13
}

/// The value that trimming and parsing a message field yields: the decimal
/// value of the trimmed digits, or the default when the trimmed bytes are
/// empty, hold a non-digit, or overflow.
pub open spec fn spec_parse_or(b: Seq<u8>, default: u32) -> u32 {
    let t = spec_trim(b);
    if t.len() >= 1 && spec_is_digits(t) && spec_parse_uint(t) <= u32::MAX {
        spec_parse_uint(t) as u32
    } else {
        default
    }
}

/// Trim a message field and parse it as a decimal value, falling back to
/// the default on empty, non-digit or overflowing input.
pub fn parse_trimmed_or(b: &[u8], default: u32) -> (r: u32)
    ensures
        r == spec_parse_or(b@, default),
{
    let t = trim_bytes(b);
    match parse_uint(t) {
        Some(v) => v,
        None => default,
    }
}

/// The decimal digit characters of a value, most significant first.
pub open spec fn spec_char_digits(v: nat) -> Seq<char>
    decreases v,
{
    if v < 10 {
        seq![spec_digit_char(v)]
    } else {
        spec_char_digits(v / 10).push(spec_digit_char(v % 10))
    }
}

/// The character of one decimal digit.
pub open spec fn spec_digit_char(d: nat) -> char {
    if d == 0 {
        '0'
    } else if d == 1 {
        '1'
    } else if d == 2 {
        '2'
    } else if d == 3 {
        '3'
    } else if d == 4 {
        '4'
    } else if d == 5 {
        '5'
    } else if d == 6 {
        '6'
    } else if d == 7 {
        '7'
    } else if d == 8 {
        '8'
    } else {
        '9'
    }
}

/// One decimal digit as a string.
fn digit_str(d: u64) -> (r: &'static str)
    requires
        d <= 9,
    ensures
        r@ == seq![spec_digit_char(d as nat)],
{
    proof {
        reveal_strlit("0");
        reveal_strlit("1");
        reveal_strlit("2");
        reveal_strlit("3");
        reveal_strlit("4");
        reveal_strlit("5");
        reveal_strlit("6");
        reveal_strlit("7");
        reveal_strlit("8");
        reveal_strlit("9");
    }
    let r = if d == 0 {
        "0"
    } else if d == 1 {
        "1"
    } else if d == 2 {
        "2"
    } else if d == 3 {
        "3"
    } else if d == 4 {
        "4"
    } else if d == 5 {
        "5"
    } else if d == 6 {
        "6"
    } else if d == 7 {
        "7"
    } else if d == 8 {
        "8"
    } else {
        "9"
    };
    proof {
        assert(r@ =~= seq![spec_digit_char(d as nat)]);
    }
    r
}

/// A value in decimal as a string of digit characters.
pub fn uint_to_string(v: u64) -> (r: String)
    ensures
        r@ == spec_char_digits(v as nat),
    decreases v,
{
    if v < 10 {
        String::from_str(digit_str(v))
    } else {
        let mut s = uint_to_string(v / 10);
        s.append(digit_str(v % 10));
        proof {
            assert(s@ =~= spec_char_digits(v as nat));
        }
        s
    }
}

/// A digit-sequence prefix never has a larger value than the whole.
proof fn lemma_parse_uint_monotonic(s: Seq<u8>, i: int)
    requires
        0 <= i <= s.len(),
        spec_is_digits(s),
    ensures
        spec_parse_uint(s.take(i)) <= spec_parse_uint(s),
    decreases s.len() - i,
{
    if i < s.len() {
        lemma_parse_uint_monotonic(s, i + 1);
        assert(s.take(i + 1).drop_last() =~= s.take(i));
        assert(spec_parse_uint(s.take(i + 1)) == spec_parse_uint(s.take(i)) * 10 + (s.take(
            i + 1,
        ).last() - DIGIT_ZERO));
        assert(spec_parse_uint(s.take(i)) <= spec_parse_uint(s.take(i)) * 10) by (nonlinear_arith);
    } else {
        assert(s.take(i) =~= s);
    }
}

} // verus!
