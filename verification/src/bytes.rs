//! Byte-string utilities shared by the header and target parsers.
//!
//! Header values arrive as raw bytes off the wire, so the parsing layer works
//! over `&[u8]` with specifications over `Seq<u8>`.

use vstd::prelude::*;
use vstd::slice::{slice_subrange, slice_to_vec};
use vstd::string::StringSliceAdditionalSpecFns;
use vstd::utf8::valid_utf8;

verus! {

/// The ASCII colon, the structural separator of SSDP header values.
pub const COLON: u8 = 58;

/// Compare two byte strings for equality.
pub fn bytes_eq(a: &[u8], b: &[u8]) -> (r: bool)
    ensures
        r == (a@ == b@),
{
    if a.len() != b.len() {
        assert(a@ != b@) by {
            assert(a@.len() != b@.len());
        }
        return false;
    }
    let n = a.len();
    let mut i: usize = 0;
    while i < n
        invariant
            n == a@.len() == b@.len(),
            0 <= i <= n,
            forall|j: int| 0 <= j < i ==> a@[j] == b@[j],
        decreases n - i,
    {
        if a[i] != b[i] {
            return false;
        }
        i += 1;
    }
    assert(a@ =~= b@);
    true
}

/// Whether `needle` occurs as a contiguous subsequence of `hay`.
pub open spec fn spec_contains_seq(hay: Seq<u8>, needle: Seq<u8>) -> bool {
    exists|i: int|
        0 <= i && i + needle.len() <= hay.len() && #[trigger] hay.subrange(i, i + needle.len())
            == needle
}

/// Substring search: whether `needle` occurs anywhere in `hay`.
pub fn contains_seq(hay: &[u8], needle: &[u8]) -> (r: bool)
    ensures
        r == spec_contains_seq(hay@, needle@),
{
    let m = needle.len();
    let n = hay.len();
    if m > n {
        return false;
    }
    if m == 0 {
        assert(spec_contains_seq(hay@, needle@)) by {
            assert(hay@.subrange(0, 0 + needle@.len() as int) =~= needle@);
        }
        return true;
    }
    let mut i: usize = 0;
    while i <= n - m
        invariant
            m == needle@.len(),
            n == hay@.len(),
            1 <= m <= n,
            0 <= i <= n - m + 1,
            forall|k: int|
                0 <= k < i ==> #[trigger] hay@.subrange(k, k + needle@.len()) != needle@,
        decreases n - i,
    {
        let window = slice_subrange(hay, i, i + m);
        if bytes_eq(window, needle) {
            return true;
        }
        i += 1;
    }
    false
}

/// Whether every byte of `s` is an ASCII decimal digit.
pub open spec fn all_dec_digits(s: Seq<u8>) -> bool {
    forall|i: int| 0 <= i < s.len() ==> 48 <= #[trigger] s[i] <= 57
}

/// The numeric value of a string of ASCII decimal digits.
pub open spec fn dec_value(s: Seq<u8>) -> nat
    decreases s.len(),
{
    if s.len() == 0 {
        0
    } else {
        dec_value(s.drop_last()) * 10 + (s.last() - 48) as nat
    }
}

/// The value of a decimal numeral with an optional leading `+`, in the manner
/// of the standard library's unsigned `from_str_radix`: at least one digit
/// must follow the optional sign, and every character must be a digit.
pub open spec fn spec_parse_unsigned(s: Seq<u8>) -> Option<nat> {
    let t = if s.len() > 0 && s[0] == 43 {
        s.drop_first()
    } else {
        s
    };
    if t.len() > 0 && all_dec_digits(t) {
        Some(dec_value(t))
    } else {
        None
    }
}

/// A decimal numeral keeps or grows its value as digits are appended.
proof fn lemma_dec_value_take_monotone(s: Seq<u8>, i: int)
    requires
        0 <= i <= s.len(),
    ensures
        dec_value(s.take(i)) <= dec_value(s),
    decreases s.len() - i,
{
    if i < s.len() {
        lemma_dec_value_take_monotone(s, i + 1);
        assert(s.take(i + 1).drop_last() =~= s.take(i));
        assert(dec_value(s.take(i + 1)) == dec_value(s.take(i)) * 10 + (s.take(i + 1).last()
            - 48) as nat);
    } else {
        assert(s.take(i) =~= s);
    }
}

/// Parse the digit part of a decimal numeral, bounded by `max`.
///
/// Returns the value of `digits` when every byte is a digit, there is at
/// least one, and the value does not exceed `max`.
pub fn parse_digits_bounded(digits: &[u8], max: u64) -> (r: Option<u64>)
    ensures
        match r {
            Some(v) => digits@.len() > 0 && all_dec_digits(digits@) && dec_value(digits@) == v
                && v <= max,
            None => !(digits@.len() > 0 && all_dec_digits(digits@) && dec_value(digits@)
                <= max),
        },
{
    let n = digits.len();
    if n == 0 {
        return None;
    }
    let mut acc: u64 = 0;
    let mut i: usize = 0;
    while i < n
        invariant
            n == digits@.len(),
            0 <= i <= n,
            all_dec_digits(digits@.take(i as int)),
            acc == dec_value(digits@.take(i as int)),
            acc <= max,
            max <= u64::MAX,
        decreases n - i,
    {
        let b = digits[i];
        if b < 48 || b > 57 {
            assert(!all_dec_digits(digits@));
            return None;
        }
        let d: u64 = (b - 48) as u64;
        // grow the accumulator, giving up as soon as the bound is passed
        if acc > (u64::MAX - d) / 10 || acc * 10 + d > max {
            proof {
                assert(digits@.take(i + 1).drop_last() =~= digits@.take(i as int));
                assert(dec_value(digits@.take(i + 1)) == acc * 10 + d);
                lemma_dec_value_take_monotone(digits@, i + 1);
                assert(dec_value(digits@) > max);
            }
            return None;
        }
        acc = acc * 10 + d;
        proof {
            assert(digits@.take(i + 1).drop_last() =~= digits@.take(i as int));
        }
        i += 1;
    }
    assert(digits@.take(n as int) =~= digits@);
    Some(acc)
}

/// Parse a decimal numeral with an optional leading `+`, bounded by `max`.
pub fn parse_unsigned_bounded(s: &[u8], max: u64) -> (r: Option<u64>)
    ensures
        match r {
            Some(v) => spec_parse_unsigned(s@) == Some(v as nat) && v <= max,
            None => !(spec_parse_unsigned(s@) matches Some(v) && v <= max),
        },
{
    if s.len() > 0 && s[0] == 43 {
        let rest = slice_subrange(s, 1, s.len());
        assert(rest@ =~= s@.drop_first());
        parse_digits_bounded(rest, max)
    } else {
        parse_digits_bounded(s, max)
    }
}

/// The index of the first occurrence of `b` in `s`, if any.
pub fn find_byte(s: &[u8], b: u8) -> (r: Option<usize>)
    ensures
        match r {
            Some(i) => 0 <= i < s@.len() && s@[i as int] == b && forall|j: int|
                0 <= j < i ==> s@[j] != b,
            None => forall|j: int| 0 <= j < s@.len() ==> s@[j] != b,
        },
{
    let n = s.len();
    let mut i: usize = 0;
    while i < n
        invariant
            n == s@.len(),
            0 <= i <= n,
            forall|j: int| 0 <= j < i ==> s@[j] != b,
        decreases n - i,
    {
        if s[i] == b {
            return Some(i);
        }
        i += 1;
    }
    None
}

/// Copy a subrange of a byte slice into a fresh vector.
pub fn sub_to_vec(s: &[u8], i: usize, j: usize) -> (r: Vec<u8>)
    requires
        0 <= i <= j <= s@.len(),
    ensures
        r@ == s@.subrange(i as int, j as int),
{
    slice_to_vec(slice_subrange(s, i, j))
}

/// Every byte string made only of ASCII bytes is valid UTF-8.
pub proof fn lemma_ascii_is_valid_utf8(s: Seq<u8>)
    requires
        forall|i: int| 0 <= i < s.len() ==> #[trigger] s[i] < 128,
    ensures
        valid_utf8(s),
{
    assert forall|i: int| 0 <= i < s.len() implies #[trigger] vstd::utf8::is_leading_byte_width_1(
        s[i],
    ) by {}
    vstd::utf8::partial_valid_utf8_extend_ascii_block(s, 0, s.len() as int);
    assert(s.take(s.len() as int) =~= s);
}

/// Relies on `std::str::from_utf8`: it returns `Ok` exactly when the bytes
/// are valid UTF-8, and the returned slice views those same bytes.
#[verifier::external_body]
pub fn bytes_as_str(v: &[u8]) -> (r: Option<&str>)
    ensures
        r is Some <==> valid_utf8(v@),
        r matches Some(s) ==> s.spec_bytes() == v@,
{
    std::str::from_utf8(v).ok()
}

} // verus!
