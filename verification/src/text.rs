//! Small helpers for building strings in verified code.

use vstd::prelude::*;

verus! {

/// Decimal digit `d` as a character; meaningful only for `d < 10`.
pub open spec fn digit_char(d: nat) -> char {
    if d == 0 {
        '0'
    } else if d == 1 {
        '1'
    } else if d == 2 {
        '2'
    } else if d == 3 {
        '3'
    } else if d == 4 {
        '4'
    } else if d == 5 {
        '5'
    } else if d == 6 {
        '6'
    } else if d == 7 {
        '7'
    } else if d == 8 {
        '8'
    } else {
        '9'
    }
}

/// The usual base-10 rendering of `n`, most significant digit first.
pub open spec fn dec_chars(n: nat) -> Seq<char>
    decreases n,
{
    if n < 10 {
        seq![digit_char(n)]
    } else {
        dec_chars(n / 10).push(digit_char(n % 10))
    }
}

/// Relies on `String::push` from std: appends exactly the given character.
#[verifier::external_body]
pub fn push_char(s: &mut String, c: char)
    ensures
        final(s)@ == old(s)@.push(c),
{
    s.push(c);
}

/// Digit character for an executable digit value.
pub fn digit_of(d: u16) -> (c: char)
    requires
        d < 10,
    ensures
        c == digit_char(d as nat),
{
    match d {
        0 => '0',
        1 => '1',
        2 => '2',
        3 => '3',
        4 => '4',
        5 => '5',
        6 => '6',
        7 => '7',
        8 => '8',
        _ => '9',
    }
}

/// Appends the decimal rendering of `n` to `s`.
pub fn push_dec(s: &mut String, n: u16)
    ensures
        final(s)@ == old(s)@ + dec_chars(n as nat),
    decreases n,
{
    if n >= 10 {
        push_dec(s, n / 10);
        let d = digit_of(n % 10);
        push_char(s, d);
        proof {
            assert(s@ =~= old(s)@ + dec_chars(n as nat));
        }
    } else {
        let d = digit_of(n);
        push_char(s, d);
        proof {
            assert(s@ =~= old(s)@ + dec_chars(n as nat));
        }
    }
}

} // verus!
