//! Small text-building primitives shared by the SVG modules: appending a
//! single character to a `String`, and decimal formatting of integers.

use vstd::prelude::*;

verus! {

/// Relies on `String::push`: appends exactly the one character to the string.
pub assume_specification[ String::push ](s: &mut String, c: char)
    ensures
        final(s)@ == old(s)@.push(c),
;

/// The decimal digit character for a value below ten.
pub open spec fn dec_digit_spec(v: int) -> char {
    if v == 0 {
        '0'
    } else if v == 1 {
        '1'
    } else if v == 2 {
        '2'
    } else if v == 3 {
        '3'
    } else if v == 4 {
        '4'
    } else if v == 5 {
        '5'
    } else if v == 6 {
        '6'
    } else if v == 7 {
        '7'
    } else if v == 8 {
        '8'
    } else {
        '9'
    }
}

/// The decimal representation of a nonnegative integer, most significant
/// digit first, with no leading zeros (except for zero itself).
pub open spec fn dec_spec(n: int) -> Seq<char>
    decreases n,
{
    if n < 10 {
        seq![dec_digit_spec(n)]
    } else {
        dec_spec(n / 10) + seq![dec_digit_spec(n % 10)]
    }
}

fn dec_digit(v: u32) -> (c: char)
    requires
        v < 10,
    ensures
        c == dec_digit_spec(v as int),
{
    if v == 0 {
        '0'
    } else if v == 1 {
        '1'
    } else if v == 2 {
        '2'
    } else if v == 3 {
        '3'
    } else if v == 4 {
        '4'
    } else if v == 5 {
        '5'
    } else if v == 6 {
        '6'
    } else if v == 7 {
        '7'
    } else if v == 8 {
        '8'
    } else {
        '9'
    }
}

/// Formats a `u32` in decimal, as the `Display` implementation does.
pub fn u32_to_string(n: u32) -> (r: String)
    ensures
        r@ == dec_spec(n as int),
    decreases n,
{
    if n < 10 {
        let mut s = String::new();
        s.push(dec_digit(n));
        assert(s@ =~= dec_spec(n as int));
        s
    } else {
        let mut s = u32_to_string(n / 10);
        s.push(dec_digit(n % 10));
        assert(s@ =~= dec_spec(n as int));
        s
    }
}

} // verus!
