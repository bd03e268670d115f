//! ASCII text as bytes: what MQTT topics and payloads are made of.
//!
//! Numbers are read the way `str::parse` reads an unsigned integer: an
//! optional `+`, then one or more decimal digits, and the value must fit.

use vstd::prelude::*;
use vstd::string::StringSliceAdditionalSpecFns;

use crate::utils::append_bytes;

verus! {

/// The bytes of a piece of text.
pub open spec fn bytes_of(s: &str) -> Seq<u8> {
    s.spec_bytes()
}

/// `b` is one of the characters `0` to `9`.
pub open spec fn is_digit(b: u8) -> bool {
    0x30 <= b <= 0x39
}

/// Every byte of `s` is a decimal digit.
pub open spec fn all_digits(s: Seq<u8>) -> bool {
    forall|i: int| 0 <= i < s.len() ==> is_digit(#[trigger] s[i])
}

/// The number that a sequence of decimal digits denotes, the most
/// significant digit first; `0` for the empty sequence.
pub open spec fn digits_value(s: Seq<u8>) -> nat
    decreases s.len(),
{
    if s.len() == 0 {
        0
    } else {
        digits_value(s.drop_last()) * 10 + (s.last() - 0x30) as nat
    }
}

/// `s` without a leading `+`.
pub open spec fn without_plus(s: Seq<u8>) -> Seq<u8> {
    if s.len() > 0 && s[0] == 0x2B {
        s.drop_first()
    } else {
        s
    }
}

/// The unsigned number that `s` denotes, if it is an optional `+` followed
/// by at least one digit and the number is at most `max`.
pub open spec fn parse_unsigned(s: Seq<u8>, max: nat) -> Option<nat> {
    let digits = without_plus(s);
    if digits.len() > 0 && all_digits(digits) && digits_value(digits) <= max {
        Some(digits_value(digits))
    } else {
        None
    }
}

/// `parse_unsigned` with the result as a `u64`.
pub open spec fn parse_unsigned_u64(s: Seq<u8>, max: u64) -> Option<u64> {
    match parse_unsigned(s, max as nat) {
        Some(v) => Some(v as u64),
        None => None,
    }
}

/// The boolean that `s` spells: `true` or `false`, nothing else.
pub open spec fn parse_boolean(s: Seq<u8>) -> Option<bool> {
    if s == bytes_of("true") {
        Some(true)
    } else if s == bytes_of("false") {
        Some(false)
    } else {
        None
    }
}

/// The decimal digits of `n`, without leading zeros; `0` is one digit.
pub open spec fn decimal_text(n: nat) -> Seq<u8>
    decreases n,
{
    if n < 10 {
        seq![(0x30 + n) as u8]
    } else {
        decimal_text(n / 10).push((0x30 + n % 10) as u8)
    }
}

/// The decimal digits of `n`, with a leading zero if there is only one.
pub open spec fn decimal_text_two(n: nat) -> Seq<u8> {
    if n < 10 {
        seq![0x30u8] + decimal_text(n)
    } else {
        decimal_text(n)
    }
}

/// `true` or `false`, spelled out.
pub open spec fn boolean_text(value: bool) -> Seq<u8> {
    if value {
        bytes_of("true")
    } else {
        bytes_of("false")
    }
}

/// The lower-case form of an ASCII letter; any other byte unchanged.
pub open spec fn lower(b: u8) -> u8 {
    if 0x41 <= b <= 0x5A {
        (b + 0x20) as u8
    } else {
        b
    }
}

/// `s` with every ASCII capital replaced by its lower-case letter.
pub open spec fn lowered(s: Seq<u8>) -> Seq<u8> {
    Seq::new(s.len(), |i: int| lower(s[i]))
}

/// `s` ends with all of `suffix`.
pub open spec fn finishes_with(s: Seq<u8>, suffix: Seq<u8>) -> bool {
    suffix.len() <= s.len() && s.skip(s.len() - suffix.len()) == suffix
}

/// `s` starts with all of `prefix`.
pub open spec fn starts_with(s: Seq<u8>, prefix: Seq<u8>) -> bool {
    prefix.len() <= s.len() && s.take(prefix.len() as int) == prefix
}

/// What stands in `s` between `prefix` and `suffix`, if `s` starts with the
/// one, ends with the other and the two do not overlap.
pub open spec fn middle(s: Seq<u8>, prefix: Seq<u8>, suffix: Seq<u8>) -> Option<Seq<u8>> {
    if starts_with(s, prefix) && finishes_with(s, suffix) && prefix.len() + suffix.len()
        <= s.len() {
        Some(s.subrange(prefix.len() as int, s.len() - suffix.len()))
    } else {
        None
    }
}

/// The whole number that `s` denotes, brought into the range of a byte:
/// an optional sign and at least one digit; a negative number counts as
/// `0`, one above `255` as `255`.
pub open spec fn saturating_byte(s: Seq<u8>) -> Option<u8> {
    let negative = s.len() > 0 && s[0] == 0x2D;
    let digits = if negative {
        s.drop_first()
    } else {
        without_plus(s)
    };
    if digits.len() > 0 && all_digits(digits) {
        Some(
            if negative {
                0u8
            } else if digits_value(digits) > 255 {
                255u8
            } else {
                digits_value(digits) as u8
            },
        )
    } else {
        None
    }
}

/// The value of a digit sequence does not shrink when a digit is appended.
pub proof fn lemma_digits_value_grows(s: Seq<u8>, n: int)
    requires
        0 <= n <= s.len(),
        all_digits(s),
    ensures
        digits_value(s.take(n)) <= digits_value(s),
    decreases s.len() - n,
{
    if n == s.len() {
        assert(s.take(n) =~= s);
    } else {
        lemma_digits_value_grows(s, n + 1);
        assert(s.take(n + 1).drop_last() =~= s.take(n));
        assert(is_digit(s.take(n + 1).last()));
    }
}

/// Do two byte strings hold the same bytes?
pub fn same_bytes(a: &[u8], b: &[u8]) -> (r: bool)
    ensures
        r == (a@ == b@),
{
    if a.len() != b.len() {
        return false;
    }
    let mut i: usize = 0;
    while i < a.len()
        invariant
            i <= a@.len(),
            a@.len() == b@.len(),
            a@.take(i as int) == b@.take(i as int),
        decreases a@.len() - i,
    {
        if a[i] != b[i] {
            assert(a@[i as int] != b@[i as int]);
            return false;
        }
        i = i + 1;
        assert(a@.take(i as int) =~= a@.take(i - 1).push(a@[i - 1]));
        assert(b@.take(i as int) =~= b@.take(i - 1).push(b@[i - 1]));
    }
    assert(a@.take(a@.len() as int) =~= a@);
    assert(b@.take(b@.len() as int) =~= b@);
    true
}

/// Does `s` start with `prefix`?
pub fn has_prefix(s: &[u8], prefix: &[u8]) -> (r: bool)
    ensures
        r == starts_with(s@, prefix@),
{
    if prefix.len() > s.len() {
        return false;
    }
    let head = vstd::slice::slice_subrange(s, 0, prefix.len());
    assert(head@ =~= s@.take(prefix@.len() as int));
    same_bytes(head, prefix)
}

/// Does `s` end with `suffix`?
pub fn has_suffix(s: &[u8], suffix: &[u8]) -> (r: bool)
    ensures
        r == finishes_with(s@, suffix@),
{
    if suffix.len() > s.len() {
        return false;
    }
    let tail = vstd::slice::slice_subrange(s, s.len() - suffix.len(), s.len());
    assert(tail@ =~= s@.skip(s@.len() - suffix@.len()));
    same_bytes(tail, suffix)
}

/// The lower-case form of an ASCII letter; any other byte unchanged.
pub fn to_lower(b: u8) -> (r: u8)
    ensures
        r == lower(b),
{
    if 0x41 <= b && b <= 0x5A {
        b + 0x20
    } else {
        b
    }
}

/// Is `s`, with its ASCII capitals made lower case, the same as `word`?
pub fn is_word(s: &[u8], word: &[u8]) -> (r: bool)
    ensures
        r == (lowered(s@) == word@),
{
    if s.len() != word.len() {
        return false;
    }
    let mut i: usize = 0;
    while i < s.len()
        invariant
            i <= s@.len(),
            s@.len() == word@.len(),
            forall|j: int| 0 <= j < i ==> lower(s@[j]) == word@[j],
        decreases s@.len() - i,
    {
        if to_lower(s[i]) != word[i] {
            assert(lowered(s@)[i as int] != word@[i as int]);
            return false;
        }
        i = i + 1;
    }
    assert(lowered(s@) =~= word@);
    true
}

/// Reads an unsigned decimal number of at most `max`.
pub fn parse_bounded(text: &[u8], max: u64) -> (r: Option<u64>)
    ensures
        r == parse_unsigned_u64(text@, max),
{
    let start: usize = if text.len() > 0 && text[0] == 0x2B {
        1
    } else {
        0
    };
    let ghost digits = without_plus(text@);
    assert(digits =~= text@.skip(start as int));
    if start == text.len() {
        return None;
    }
    let mut value: u64 = 0;
    let mut i: usize = start;
    while i < text.len()
        invariant
            start <= i <= text@.len(),
            digits == text@.skip(start as int),
            digits == without_plus(text@),
            all_digits(digits.take(i - start)),
            value == digits_value(digits.take(i - start)),
            value <= max,
        decreases text@.len() - i,
    {
        let b = text[i];
        let ghost k = i - start;
        assert(digits[k] == b);
        if b < 0x30 || b > 0x39 {
            assert(!is_digit(digits[k]));
            return None;
        }
        let digit: u64 = (b - 0x30) as u64;
        assert(digits.take(k + 1).drop_last() =~= digits.take(k));
        assert(all_digits(digits.take(k + 1))) by {
            assert forall|j: int| 0 <= j < k + 1 implies is_digit(
                #[trigger] digits.take(k + 1)[j],
            ) by {
                if j < k {
                    assert(digits.take(k)[j] == digits.take(k + 1)[j]);
                }
            }
        }
        if digit > max || value > (max - digit) / 10 {
            proof {
                assert(digits_value(digits.take(k + 1)) > max);
                if all_digits(digits) {
                    lemma_digits_value_grows(digits, k + 1);
                }
            }
            return None;
        }
        value = value * 10 + digit;
        i = i + 1;
    }
    assert(digits.take(digits.len() as int) =~= digits);
    Some(value)
}

/// Reads a whole number and brings it into the range of a byte.
pub fn parse_saturating_byte(text: &[u8]) -> (r: Option<u8>)
    ensures
        r == saturating_byte(text@),
{
    let negative = text.len() > 0 && text[0] == 0x2D;
    let start: usize = if text.len() > 0 && (text[0] == 0x2D || text[0] == 0x2B) {
        1
    } else {
        0
    };
    let ghost digits = text@.skip(start as int);
    assert(digits =~= if negative {
        text@.drop_first()
    } else {
        without_plus(text@)
    });
    if start == text.len() {
        return None;
    }
    let mut value: u16 = 0;
    let mut i: usize = start;
    while i < text.len()
        invariant
            start <= i <= text@.len(),
            digits == text@.skip(start as int),
            negative == (text@.len() > 0 && text@[0] == 0x2D),
            digits == if negative {
                text@.drop_first()
            } else {
                without_plus(text@)
            },
            all_digits(digits.take(i - start)),
            value <= 256,
            value == if digits_value(digits.take(i - start)) > 255 {
                256
            } else {
                digits_value(digits.take(i - start))
            },
        decreases text@.len() - i,
    {
        let b = text[i];
        let ghost k = i - start;
        assert(digits[k] == b);
        if b < 0x30 || b > 0x39 {
            assert(!is_digit(digits[k]));
            return None;
        }
        assert(digits.take(k + 1).drop_last() =~= digits.take(k));
        assert(all_digits(digits.take(k + 1))) by {
            assert forall|j: int| 0 <= j < k + 1 implies is_digit(
                #[trigger] digits.take(k + 1)[j],
            ) by {
                if j < k {
                    assert(digits.take(k)[j] == digits.take(k + 1)[j]);
                }
            }
        }
        let next: u16 = value * 10 + (b - 0x30) as u16;
        value = if next > 255 {
            256
        } else {
            next
        };
        i = i + 1;
    }
    assert(digits.take(digits.len() as int) =~= digits);
    if negative {
        Some(0)
    } else if value > 255 {
        Some(255)
    } else {
        Some(value as u8)
    }
}

/// What stands in `s` between `prefix` and `suffix`.
pub fn between<'a>(s: &'a [u8], prefix: &[u8], suffix: &[u8]) -> (r: Option<&'a [u8]>)
    ensures
        r is Some <==> middle(s@, prefix@, suffix@) is Some,
        r is Some ==> r->Some_0@ == middle(s@, prefix@, suffix@)->Some_0,
{
    if has_prefix(s, prefix) && has_suffix(s, suffix) && s.len() - prefix.len() >= suffix.len() {
        Some(vstd::slice::slice_subrange(s, prefix.len(), s.len() - suffix.len()))
    } else {
        None
    }
}

/// Reads `true` or `false`.
pub fn parse_bool(text: &[u8]) -> (r: Option<bool>)
    ensures
        r == parse_boolean(text@),
{
    if same_bytes(text, "true".as_bytes()) {
        Some(true)
    } else if same_bytes(text, "false".as_bytes()) {
        Some(false)
    } else {
        None
    }
}

/// Appends the decimal digits of `n` to `v`.
pub fn push_decimal(v: &mut Vec<u8>, n: u64)
    ensures
        final(v)@ == old(v)@ + decimal_text(n as nat),
    decreases n,
{
    let ghost before = v@;
    if n >= 10 {
        push_decimal(v, n / 10);
    }
    v.push(0x30 + (n % 10) as u8);
    assert(v@ =~= before + decimal_text(n as nat));
}

/// The decimal digits of `n`.
pub fn decimal(n: u64) -> (v: Vec<u8>)
    ensures
        v@ == decimal_text(n as nat),
{
    let mut v: Vec<u8> = Vec::new();
    push_decimal(&mut v, n);
    assert(v@ =~= decimal_text(n as nat));
    v
}

/// Appends the decimal digits of `n` to `v`, at least two of them.
pub fn push_decimal_two(v: &mut Vec<u8>, n: u64)
    ensures
        final(v)@ == old(v)@ + decimal_text_two(n as nat),
{
    let ghost before = v@;
    if n < 10 {
        v.push(0x30);
    }
    push_decimal(v, n);
    assert(v@ =~= before + decimal_text_two(n as nat));
}

/// `true` or `false`, spelled out.
pub fn boolean(value: bool) -> (v: Vec<u8>)
    ensures
        v@ == boolean_text(value),
{
    let mut v: Vec<u8> = Vec::new();
    if value {
        append_bytes(&mut v, "true".as_bytes());
    } else {
        append_bytes(&mut v, "false".as_bytes());
    }
    assert(v@ =~= boolean_text(value));
    v
}

/// The bytes of `s`, owned.
pub fn text(s: &str) -> (v: Vec<u8>)
    ensures
        v@ == bytes_of(s),
{
    let mut v: Vec<u8> = Vec::new();
    append_bytes(&mut v, s.as_bytes());
    assert(v@ =~= bytes_of(s));
    v
}

} // verus!
