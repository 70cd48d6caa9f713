//! Small helpers for building strings character by character, and the
//! decimal rendering of integers.

use vstd::prelude::*;

verus! {

/// Relies on `String::push`: appends the given character to the end of the
/// string.
#[verifier::external_body]
pub(crate) fn push_char(s: &mut String, c: char)
    ensures
        final(s)@ == old(s)@ + seq![c],
{
    s.push(c);
}

/// Appends the given characters to the end of the string.
pub(crate) fn push_chars(s: &mut String, chars: &[char])
    ensures
        final(s)@ == old(s)@ + chars@,
{
    let ghost start = s@;
    let mut i: usize = 0;
    while i < chars.len()
        invariant
            i <= chars@.len(),
            s@ == start + chars@.subrange(0, i as int),
        decreases chars@.len() - i,
    {
        push_char(s, chars[i]);
        proof {
            assert(chars@.subrange(0, i as int + 1)
                =~= chars@.subrange(0, i as int) + seq![chars@[i as int]]);
        }
        i = i + 1;
    }
    proof {
        assert(chars@.subrange(0, chars@.len() as int) =~= chars@);
        assert(start + chars@.subrange(0, chars@.len() as int) =~= start + chars@);
    }
}

/// The character for one decimal digit.
pub open spec fn spec_digit_char(d: nat) -> char
    recommends
        d < 10,
{
    ((d + 48) as u8) as char
}

/// The decimal digits of a nonnegative number, most significant first,
/// without a sign and without leading zeroes (a single `0` for zero).
pub open spec fn spec_decimal_digits(n: nat) -> Seq<char>
    decreases n,
{
    if n < 10 {
        seq![spec_digit_char(n)]
    } else {
        spec_decimal_digits(n / 10) + seq![spec_digit_char(n % 10)]
    }
}

/// The decimal rendering of an integer: a `-` sign for negative numbers,
/// then the digits of the magnitude.
pub open spec fn spec_decimal(n: int) -> Seq<char> {
    if n < 0 {
        seq!['-'] + spec_decimal_digits((-n) as nat)
    } else {
        spec_decimal_digits(n as nat)
    }
}

/// The character for one decimal digit.
fn digit_char(d: u64) -> (c: char)
    requires
        d < 10,
    ensures
        c == spec_digit_char(d as nat),
{
    (d as u8 + 48) as char
}

/// Appends the decimal digits of `n` to the string.
fn push_decimal_digits(s: &mut String, n: u64)
    ensures
        final(s)@ == old(s)@ + spec_decimal_digits(n as nat),
    decreases n,
{
    if n < 10 {
        push_char(s, digit_char(n));
    } else {
        push_decimal_digits(s, n / 10);
        push_char(s, digit_char(n % 10));
    }
}

/// Appends the decimal rendering of `n` to the string.
pub(crate) fn push_decimal(s: &mut String, n: i32)
    ensures
        final(s)@ == old(s)@ + spec_decimal(n as int),
{
    let wide: i64 = n as i64;
    if wide < 0 {
        push_char(s, '-');
        push_decimal_digits(s, (-wide) as u64);
    } else {
        push_decimal_digits(s, wide as u64);
    }
}

} // verus!
