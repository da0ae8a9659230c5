//! Decimal rendering of unsigned integers, specified by the usual
//! recursive digit expansion.

use vstd::prelude::*;

use crate::strings::push_char;

verus! {

/// The character for one decimal digit.
pub open spec fn digit_char(d: int) -> char {
    if d == 0 {
        '0'
    } else if d == 1 {
        '1'
    } else if d == 2 {
        '2'
    } else if d == 3 {
        '3'
    } else if d == 4 {
        '4'
    } else if d == 5 {
        '5'
    } else if d == 6 {
        '6'
    } else if d == 7 {
        '7'
    } else if d == 8 {
        '8'
    } else {
        '9'
    }
}

/// The decimal digit sequence of `n`, most significant first, with no
/// leading zero except for `n == 0` itself.
pub open spec fn decimal_digits(n: nat) -> Seq<char>
    decreases n,
{
    if n < 10 {
        seq![digit_char(n as int)]
    } else {
        decimal_digits(n / 10).push(digit_char((n % 10) as int))
    }
}

/// The character for one digit value.
pub fn digit_to_char(d: u64) -> (c: char)
    requires
        d < 10,
    ensures
        c == digit_char(d as int),
{
    if d == 0 {
        '0'
    } else if d == 1 {
        '1'
    } else if d == 2 {
        '2'
    } else if d == 3 {
        '3'
    } else if d == 4 {
        '4'
    } else if d == 5 {
        '5'
    } else if d == 6 {
        '6'
    } else if d == 7 {
        '7'
    } else if d == 8 {
        '8'
    } else {
        '9'
    }
}

/// The decimal rendering of a 64-bit value.
pub fn u64_to_string(n: u64) -> (s: String)
    ensures
        s@ == decimal_digits(n as nat),
    decreases n,
{
    if n < 10 {
        let mut s = String::new();
        push_char(&mut s, digit_to_char(n));
        proof {
            assert(s@ =~= decimal_digits(n as nat));
        }
        s
    } else {
        let mut s = u64_to_string(n / 10);
        push_char(&mut s, digit_to_char(n % 10));
        s
    }
}

/// The decimal rendering of an index or length.
pub fn usize_to_string(n: usize) -> (s: String)
    ensures
        s@ == decimal_digits(n as nat),
{
    u64_to_string(n as u64)
}

/// The decimal rendering of a 32-bit value.
pub fn u32_to_string(n: u32) -> (s: String)
    ensures
        s@ == decimal_digits(n as nat),
{
    u64_to_string(n as u64)
}

} // verus!
