//! Verified text helpers: decimal rendering and parsing of 64-bit ids, and
//! character-level string comparison, shared by the signaling bridge and the
//! log classification.

use vstd::prelude::*;

verus! {

/// The decimal digit character for a value below ten.
pub open spec fn spec_digit_char(d: nat) -> char {
    if d == 0 {
        '0'
    } else if d == 1 {
        '1'
    } else if d == 2 {
        '2'
    } else if d == 3 {
        '3'
    } else if d == 4 {
        '4'
    } else if d == 5 {
        '5'
    } else if d == 6 {
        '6'
    } else if d == 7 {
        '7'
    } else if d == 8 {
        '8'
    } else {
        '9'
    }
}

/// The decimal rendering of `n`, most significant digit first, without sign
/// or leading zeros (`0` renders as "0").
pub open spec fn spec_u64_dec(n: nat) -> Seq<char>
    decreases n,
{
    if n < 10 {
        seq![spec_digit_char(n)]
    } else {
        spec_u64_dec(n / 10).push(spec_digit_char(n % 10))
    }
}

/// Whether `c` is a decimal digit.
pub open spec fn spec_is_digit(c: char) -> bool {
    48 <= c as u32 <= 57
}

/// The numeric value of a digit character.
pub open spec fn spec_digit_val(c: char) -> nat
    recommends
        spec_is_digit(c),
{
    (c as u32 - 48) as nat
}

/// The value of a digit string, read most significant digit first.
pub open spec fn spec_dec_value(digits: Seq<char>) -> nat
    decreases digits.len(),
{
    if digits.len() == 0 {
        0
    } else {
        spec_dec_value(digits.drop_last()) * 10 + spec_digit_val(digits.last())
    }
}

/// The digit part of a candidate decimal string: everything after an optional
/// leading plus sign.
pub open spec fn spec_dec_digits(s: Seq<char>) -> Seq<char> {
    if s.len() > 0 && s[0] == '+' {
        s.subrange(1, s.len() as int)
    } else {
        s
    }
}

/// Whether `s` is a well-formed decimal string: at least one digit, all
/// characters digits after an optional leading plus sign.
pub open spec fn spec_dec_wf(s: Seq<char>) -> bool {
    &&& spec_dec_digits(s).len() > 0
    &&& forall|i: int|
        0 <= i < spec_dec_digits(s).len() ==> spec_is_digit(#[trigger] spec_dec_digits(s)[i])
}

/// What parsing a decimal string into a `u64` yields: the value of its digits
/// when the string is well formed and the value fits, nothing otherwise.
pub open spec fn spec_parse_u64(s: Seq<char>) -> Option<u64> {
    if spec_dec_wf(s) && spec_dec_value(spec_dec_digits(s)) <= u64::MAX {
        Some(spec_dec_value(spec_dec_digits(s)) as u64)
    } else {
        None
    }
}

/// Relies on `String::push`: appends the given character to the end of the
/// string.
#[verifier::external_body]
pub(crate) fn push_char(s: &mut String, c: char)
    ensures
        final(s)@ == old(s)@.push(c),
{
    s.push(c)
}

/// The digit character for `d`.
fn digit_char(d: u64) -> (c: char)
    requires
        d < 10,
    ensures
        c == spec_digit_char(d as nat),
{
    if d == 0 {
        '0'
    } else if d == 1 {
        '1'
    } else if d == 2 {
        '2'
    } else if d == 3 {
        '3'
    } else if d == 4 {
        '4'
    } else if d == 5 {
        '5'
    } else if d == 6 {
        '6'
    } else if d == 7 {
        '7'
    } else if d == 8 {
        '8'
    } else {
        '9'
    }
}

/// Renders `n` in decimal, most significant digit first.
pub fn u64_to_dec(n: u64) -> (s: String)
    ensures
        s@ == spec_u64_dec(n as nat),
    decreases n,
{
    if n < 10 {
        let mut s = String::new();
        push_char(&mut s, digit_char(n));
        proof {
            assert(s@ =~= spec_u64_dec(n as nat));
        }
        s
    } else {
        let mut s = u64_to_dec(n / 10);
        push_char(&mut s, digit_char(n % 10));
        s
    }
}

/// Appending a digit multiplies the value by ten and adds the digit.
proof fn lemma_dec_value_push(digits: Seq<char>, c: char)
    ensures
        spec_dec_value(digits.push(c)) == spec_dec_value(digits) * 10 + spec_digit_val(c),
{
    assert(digits.push(c).drop_last() =~= digits);
    assert(digits.push(c).last() == c);
}

/// The value of a digit string never shrinks as more digits are read.
proof fn lemma_dec_value_prefix_le(digits: Seq<char>, i: int, j: int)
    requires
        0 <= i <= j <= digits.len(),
    ensures
        spec_dec_value(digits.subrange(0, i)) <= spec_dec_value(digits.subrange(0, j)),
    decreases j - i,
{
    if i < j {
        let shorter = digits.subrange(0, j - 1);
        let longer = digits.subrange(0, j);
        assert(longer.drop_last() =~= shorter);
        assert(spec_dec_value(longer) == spec_dec_value(shorter) * 10 + spec_digit_val(
            longer.last(),
        ));
        lemma_dec_value_prefix_le(digits, i, j - 1);
    } else {
        assert(digits.subrange(0, i) =~= digits.subrange(0, j));
    }
}

/// Parses a decimal string into a `u64`: an optional leading plus sign, then
/// one or more digits whose value fits in 64 bits; anything else is rejected.
pub fn parse_u64(s: &str) -> (r: Option<u64>)
    ensures
        r == spec_parse_u64(s@),
{
    let n = s.unicode_len();
    let start: usize = if n > 0 && s.get_char(0) == '+' {
        1
    } else {
        0
    };
    let ghost digits = spec_dec_digits(s@);
    proof {
        assert(digits =~= s@.subrange(start as int, n as int));
    }
    if start >= n {
        proof {
            assert(!spec_dec_wf(s@));
        }
        return None;
    }
    let mut val: u64 = 0;
    let mut i: usize = start;
    while i < n
        invariant
            start <= i <= n,
            n == s@.len(),
            start == 0 || start == 1,
            digits == spec_dec_digits(s@),
            digits =~= s@.subrange(start as int, n as int),
            forall|k: int|
                0 <= k < i - start ==> spec_is_digit(#[trigger] digits[k]),
            val == spec_dec_value(digits.subrange(0, i - start)),
        decreases n - i,
    {
        let c = s.get_char(i);
        let cu = c as u32;
        proof {
            assert(digits[i - start] == s@[i as int]);
        }
        if cu < 48 || cu > 57 {
            proof {
                assert(!spec_is_digit(digits[i - start]));
                assert(!spec_dec_wf(s@));
            }
            return None;
        }
        let d = (cu - 48) as u64;
        proof {
            assert(d == spec_digit_val(c));
            assert(digits.subrange(0, i + 1 - start) =~= digits.subrange(0, i - start).push(c));
            lemma_dec_value_push(digits.subrange(0, i - start), c);
        }
        if val > (u64::MAX - d) / 10 {
            proof {
                assert(val * 10 + d > u64::MAX) by (nonlinear_arith)
                    requires
                        val > (u64::MAX - d) / 10,
                        d < 10,
                ;
                assert(spec_dec_value(digits.subrange(0, i + 1 - start)) == val * 10 + d);
                lemma_dec_value_prefix_le(digits, i + 1 - start, digits.len() as int);
                assert(digits.subrange(0, digits.len() as int) =~= digits);
                assert(spec_dec_value(digits) > u64::MAX);
            }
            return None;
        }
        val = val * 10 + d;
        i = i + 1;
    }
    proof {
        assert(digits.subrange(0, n - start) =~= digits);
        assert(spec_dec_wf(s@));
    }
    Some(val)
}

/// Character-for-character string equality.
pub fn str_eq(a: &str, b: &str) -> (r: bool)
    ensures
        r <==> a@ == b@,
{
    let na = a.unicode_len();
    let nb = b.unicode_len();
    if na != nb {
        return false;
    }
    let mut i: usize = 0;
    while i < na
        invariant
            i <= na,
            na == a@.len(),
            na == b@.len(),
            forall|k: int| 0 <= k < i ==> a@[k] == b@[k],
        decreases na - i,
    {
        if a.get_char(i) != b.get_char(i) {
            return false;
        }
        i = i + 1;
    }
    proof {
        assert(a@ =~= b@);
    }
    true
}

/// Whether `p` is a prefix of `s`.
pub open spec fn spec_starts_with(s: Seq<char>, p: Seq<char>) -> bool {
    s.len() >= p.len() && s.subrange(0, p.len() as int) == p
}

/// Whether `s` starts with the prefix `p`.
pub fn str_starts_with(s: &str, p: &str) -> (r: bool)
    ensures
        r <==> spec_starts_with(s@, p@),
{
    let ns = s.unicode_len();
    let np = p.unicode_len();
    if ns < np {
        return false;
    }
    let mut i: usize = 0;
    while i < np
        invariant
            i <= np,
            np <= ns,
            ns == s@.len(),
            np == p@.len(),
            forall|k: int| 0 <= k < i ==> s@[k] == p@[k],
        decreases np - i,
    {
        if s.get_char(i) != p.get_char(i) {
            proof {
                assert(!spec_starts_with(s@, p@)) by {
                    if spec_starts_with(s@, p@) {
                        assert(s@.subrange(0, p@.len() as int)[i as int] == s@[i as int]);
                    }
                }
            }
            return false;
        }
        i = i + 1;
    }
    proof {
        assert(s@.subrange(0, p@.len() as int) =~= p@);
    }
    true
}

/// Rendering a value in decimal and reading the digits back yields the same
/// value, and the rendering is always a well-formed decimal string.
pub proof fn lemma_dec_round_trip(n: u64)
    ensures
        spec_parse_u64(spec_u64_dec(n as nat)) == Some(n),
{
    lemma_u64_dec_wf(n as nat);
    lemma_dec_value_of_dec(n as nat);
    let s = spec_u64_dec(n as nat);
    assert(s.len() > 0);
    assert(s[0] != '+') by {
        assert(spec_is_digit(s[0]));
    }
    assert(spec_dec_digits(s) =~= s);
}

/// Every character of a decimal rendering is a digit, and there is at least
/// one.
proof fn lemma_u64_dec_wf(n: nat)
    ensures
        spec_u64_dec(n).len() > 0,
        forall|i: int| 0 <= i < spec_u64_dec(n).len() ==> spec_is_digit(#[trigger] spec_u64_dec(n)[i]),
    decreases n,
{
    if n >= 10 {
        lemma_u64_dec_wf(n / 10);
        assert forall|i: int| 0 <= i < spec_u64_dec(n).len() implies spec_is_digit(
            #[trigger] spec_u64_dec(n)[i],
        ) by {
            if i < spec_u64_dec(n / 10).len() {
                assert(spec_u64_dec(n)[i] == spec_u64_dec(n / 10)[i]);
            } else {
                assert(spec_u64_dec(n)[i] == spec_digit_char(n % 10));
            }
        }
    }
}

/// A digit character reads back as the digit it was written for.
proof fn lemma_digit_char_val(d: nat)
    requires
        d < 10,
    ensures
        spec_digit_val(spec_digit_char(d)) == d,
        spec_is_digit(spec_digit_char(d)),
{
    assert('0' as u32 == 48);
    assert('1' as u32 == 49);
    assert('2' as u32 == 50);
    assert('3' as u32 == 51);
    assert('4' as u32 == 52);
    assert('5' as u32 == 53);
    assert('6' as u32 == 54);
    assert('7' as u32 == 55);
    assert('8' as u32 == 56);
    assert('9' as u32 == 57);
}

/// The value of a decimal rendering is the value rendered.
proof fn lemma_dec_value_of_dec(n: nat)
    ensures
        spec_dec_value(spec_u64_dec(n)) == n,
    decreases n,
{
    if n < 10 {
        let s = spec_u64_dec(n);
        assert(s.len() == 1);
        assert(s.last() == spec_digit_char(n));
        assert(s.drop_last() =~= Seq::<char>::empty());
        assert(spec_dec_value(s.drop_last()) == 0);
        lemma_digit_char_val(n);
    } else {
        lemma_dec_value_of_dec(n / 10);
        lemma_dec_value_push(spec_u64_dec(n / 10), spec_digit_char(n % 10));
        lemma_digit_char_val(n % 10);
    }
}

} // verus!
