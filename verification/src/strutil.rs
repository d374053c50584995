//! Verified helpers for strings and decimal numerals.
//!
//! Everything here is character-level logic: equality and prefix tests on
//! `&str`, rendering of unsigned and signed integers as decimal numerals, and
//! parsing of decimal numerals with the same acceptance rules as
//! `u64::from_str`.

use vstd::prelude::*;

verus! {

/// Appends one character to a string.
///
/// Relies on `String::push`: the character is appended at the end.
#[verifier::external_body]
pub fn push_char(s: &mut String, c: char)
    ensures
        final(s)@ == old(s)@.push(c),
{
    s.push(c)
}

/// Character-level string equality.
pub fn str_eq(a: &str, b: &str) -> (r: bool)
    ensures
        r == (a@ == b@),
{
    let alen = a.unicode_len();
    let blen = b.unicode_len();
    if alen != blen {
        assert(a@ != b@);
        return false;
    }
    let mut i: usize = 0;
    while i < alen
        invariant
            i <= alen,
            alen == a@.len(),
            alen == b@.len(),
            forall|j: int| 0 <= j < i ==> a@[j] == b@[j],
        decreases alen - i,
    {
        if a.get_char(i) != b.get_char(i) {
            return false;
        }
        i = i + 1;
    }
    assert(a@ =~= b@);
    true
}

/// `prefix` is an initial segment of `s`.
pub open spec fn spec_starts_with(s: Seq<char>, prefix: Seq<char>) -> bool {
    prefix.len() <= s.len() && s.subrange(0, prefix.len() as int) == prefix
}

/// Character-level prefix test.
pub fn str_starts_with(s: &str, prefix: &str) -> (r: bool)
    ensures
        r == spec_starts_with(s@, prefix@),
{
    let slen = s.unicode_len();
    let plen = prefix.unicode_len();
    if plen > slen {
        return false;
    }
    let mut i: usize = 0;
    while i < plen
        invariant
            i <= plen,
            plen <= slen,
            slen == s@.len(),
            plen == prefix@.len(),
            forall|j: int| 0 <= j < i ==> s@[j] == prefix@[j],
        decreases plen - i,
    {
        if s.get_char(i) != prefix.get_char(i) {
            assert(!spec_starts_with(s@, prefix@)) by {
                assert(s@.subrange(0, prefix@.len() as int)[i as int] == s@[i as int]);
            }
            return false;
        }
        i = i + 1;
    }
    assert(s@.subrange(0, plen as int) =~= prefix@);
    true
}

/// The decimal digit character for a value below ten.
pub open spec fn spec_digit_char(d: nat) -> char {
    if d == 0 {
        '0'
    } else if d == 1 {
        '1'
    } else if d == 2 {
        '2'
    } else if d == 3 {
        '3'
    } else if d == 4 {
        '4'
    } else if d == 5 {
        '5'
    } else if d == 6 {
        '6'
    } else if d == 7 {
        '7'
    } else if d == 8 {
        '8'
    } else {
        '9'
    }
}

/// The decimal numeral of a natural number, without sign or leading zeros.
pub open spec fn spec_dec_chars(n: nat) -> Seq<char>
    decreases n,
{
    if n < 10 {
        seq![spec_digit_char(n)]
    } else {
        spec_dec_chars(n / 10).push(spec_digit_char(n % 10))
    }
}

fn digit_char(d: u64) -> (c: char)
    requires
        d < 10,
    ensures
        c == spec_digit_char(d as nat),
{
    if d == 0 {
        '0'
    } else if d == 1 {
        '1'
    } else if d == 2 {
        '2'
    } else if d == 3 {
        '3'
    } else if d == 4 {
        '4'
    } else if d == 5 {
        '5'
    } else if d == 6 {
        '6'
    } else if d == 7 {
        '7'
    } else if d == 8 {
        '8'
    } else {
        '9'
    }
}

/// Renders an unsigned integer as its decimal numeral.
pub fn u64_to_string(n: u64) -> (r: String)
    ensures
        r@ == spec_dec_chars(n as nat),
    decreases n,
{
    if n < 10 {
        let mut s = String::new();
        push_char(&mut s, digit_char(n));
        assert(s@ =~= spec_dec_chars(n as nat));
        s
    } else {
        let mut s = u64_to_string(n / 10);
        push_char(&mut s, digit_char(n % 10));
        s
    }
}

/// The decimal numeral of an integer: a minus sign when negative.
pub open spec fn spec_dec_chars_signed(i: int) -> Seq<char> {
    if i < 0 {
        seq!['-'] + spec_dec_chars((-i) as nat)
    } else {
        spec_dec_chars(i as nat)
    }
}

/// Renders a signed integer as its decimal numeral.
pub fn i64_to_string(n: i64) -> (r: String)
    ensures
        r@ == spec_dec_chars_signed(n as int),
{
    if n >= 0 {
        u64_to_string(n as u64)
    } else {
        // -1 - n is the magnitude minus one; it fits in i64 for every
        // negative n, including i64::MIN.
        let mag: u64 = (-1i64 - n) as u64 + 1;
        assert(mag == (-(n as int)) as nat);
        let mut s = String::new();
        push_char(&mut s, '-');
        let digits = u64_to_string(mag);
        let r = s.concat(digits.as_str());
        assert(r@ =~= spec_dec_chars_signed(n as int));
        r
    }
}

/// The numeric value of one decimal digit character.
pub open spec fn spec_digit_val(c: char) -> nat {
    if '0' <= c {
        (c as int - '0' as int) as nat
    } else {
        0
    }
}

/// The numeric value of a sequence of decimal digit characters.
pub open spec fn spec_digits_val(s: Seq<char>) -> nat
    decreases s.len(),
{
    if s.len() == 0 {
        0
    } else {
        spec_digits_val(s.drop_last()) * 10 + spec_digit_val(s.last())
    }
}

/// Every character of `s` is a decimal digit.
pub open spec fn spec_all_digits(s: Seq<char>) -> bool {
    forall|j: int| 0 <= j < s.len() ==> '0' <= #[trigger] s[j] && s[j] <= '9'
}

/// The digits of a numeral: everything after an optional leading plus sign.
pub open spec fn spec_numeral_digits(s: Seq<char>) -> Seq<char> {
    if s.len() > 0 && s[0] == '+' {
        s.drop_first()
    } else {
        s
    }
}

/// What `u64::from_str` accepts: an optional leading plus sign, then at
/// least one digit, and a value that fits in the type.
pub open spec fn spec_parse_u64(s: Seq<char>) -> Option<u64> {
    let digits = spec_numeral_digits(s);
    if digits.len() > 0 && spec_all_digits(digits) && spec_digits_val(digits) <= u64::MAX {
        Some(spec_digits_val(digits) as u64)
    } else {
        None
    }
}

/// Parses a decimal numeral with the same acceptance rules as
/// `u64::from_str`: an optional leading `+`, then one or more digits, and
/// no overflow.
pub fn parse_u64_str(s: &str) -> (r: Option<u64>)
    ensures
        r == spec_parse_u64(s@),
{
    let len = s.unicode_len();
    let start: usize = if len > 0 && s.get_char(0) == '+' {
        1
    } else {
        0
    };
    let ghost digits: Seq<char> = s@.subrange(start as int, len as int);
    assert(digits =~= spec_numeral_digits(s@));
    if start == len {
        return None;
    }
    let mut acc: u64 = 0;
    let mut i: usize = start;
    while i < len
        invariant
            start <= i <= len,
            len == s@.len(),
            digits == s@.subrange(start as int, len as int),
            digits == spec_numeral_digits(s@),
            spec_all_digits(s@.subrange(start as int, i as int)),
            acc == spec_digits_val(s@.subrange(start as int, i as int)),
        decreases len - i,
    {
        let c = s.get_char(i);
        if c < '0' || c > '9' {
            assert(!spec_all_digits(digits)) by {
                assert(digits[i - start] == c);
            }
            return None;
        }
        let d: u64 = (c as u32 as u64) - ('0' as u32 as u64);
        assert(d == spec_digit_val(c) && d <= 9);
        if acc > (u64::MAX - d) / 10 {
            assert(acc * 10 + d > u64::MAX) by (nonlinear_arith)
                requires
                    acc > (u64::MAX - d) / 10,
                    d <= 9,
            ;
            assert(spec_digits_val(s@.subrange(start as int, i as int + 1)) > u64::MAX) by {
                assert(s@.subrange(start as int, i as int + 1).drop_last() =~= s@.subrange(
                    start as int,
                    i as int,
                ));
                assert(s@.subrange(start as int, i as int + 1).last() == c);
            }
            assert(spec_digits_val(digits) > u64::MAX) by {
                lemma_digits_val_prefix_le(digits, i + 1 - start);
                assert(digits.subrange(0, i + 1 - start) =~= s@.subrange(
                    start as int,
                    i as int + 1,
                ));
            }
            return None;
        }
        assert(acc * 10 + d <= u64::MAX) by (nonlinear_arith)
            requires
                acc <= (u64::MAX - d) / 10,
                d <= 9,
        ;
        acc = acc * 10 + d;
        i = i + 1;
        assert(s@.subrange(start as int, i as int).drop_last() =~= s@.subrange(
            start as int,
            i as int - 1,
        ));
        assert(s@.subrange(start as int, i as int).last() == c);
    }
    assert(digits =~= s@.subrange(start as int, i as int));
    Some(acc)
}

/// The value of a numeral never falls when digits are appended: the value of
/// a prefix is at most the value of the whole.
proof fn lemma_digits_val_prefix_le(s: Seq<char>, k: int)
    requires
        0 <= k <= s.len(),
    ensures
        spec_digits_val(s.subrange(0, k)) <= spec_digits_val(s),
    decreases s.len() - k,
{
    if k < s.len() {
        lemma_digits_val_prefix_le(s, k + 1)
        ;
        assert(s.subrange(0, k + 1).drop_last() =~= s.subrange(0, k));
        assert(spec_digits_val(s.subrange(0, k)) <= spec_digits_val(s.subrange(0, k + 1))) by (nonlinear_arith)
            requires
                spec_digits_val(s.subrange(0, k + 1)) == spec_digits_val(s.subrange(0, k)) * 10
                    + spec_digit_val(s.subrange(0, k + 1).last()),
        ;
    } else {
        assert(s.subrange(0, k) =~= s);
    }
}

} // verus!
