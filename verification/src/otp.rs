//! One-time pairing codes: six decimal digits, zero-padded, drawn from
//! the range `[0, 1_000_000)`.
use vstd::prelude::*;

verus! {

/// Decimal digit character of a value below ten.
pub open spec fn digit_char_of(d: u8) -> char {
    if d == 0 {
        '0'
    } else if d == 1 {
        '1'
    } else if d == 2 {
        '2'
    } else if d == 3 {
        '3'
    } else if d == 4 {
        '4'
    } else if d == 5 {
        '5'
    } else if d == 6 {
        '6'
    } else if d == 7 {
        '7'
    } else if d == 8 {
        '8'
    } else {
        '9'
    }
}

/// The six-character, zero-padded decimal rendering of an OTP value.
pub open spec fn otp_string_of(v: u32) -> Seq<char> {
    seq![
        digit_char_of(((v / 100000) % 10) as u8),
        digit_char_of(((v / 10000) % 10) as u8),
        digit_char_of(((v / 1000) % 10) as u8),
        digit_char_of(((v / 100) % 10) as u8),
        digit_char_of(((v / 10) % 10) as u8),
        digit_char_of((v % 10) as u8),
    ]
}

/// Decimal digit character of a value below ten, as executable code.
fn digit_char(d: u8) -> (c: char)
    requires
        d < 10,
    ensures
        c == digit_char_of(d),
{
    match d {
        0 => '0',
        1 => '1',
        2 => '2',
        3 => '3',
        4 => '4',
        5 => '5',
        6 => '6',
        7 => '7',
        8 => '8',
        _ => '9',
    }
}

/// Renders an OTP value as its six-digit, zero-padded code.
pub fn format_otp(v: u32) -> (r: String)
    requires
        v < 1000000,
    ensures
        r@ == otp_string_of(v),
        r@.len() == 6,
{
    let mut out = String::new();
    crate::hex::push_char(&mut out, digit_char(((v / 100000) % 10) as u8));
    crate::hex::push_char(&mut out, digit_char(((v / 10000) % 10) as u8));
    crate::hex::push_char(&mut out, digit_char(((v / 1000) % 10) as u8));
    crate::hex::push_char(&mut out, digit_char(((v / 100) % 10) as u8));
    crate::hex::push_char(&mut out, digit_char(((v / 10) % 10) as u8));
    crate::hex::push_char(&mut out, digit_char((v % 10) as u8));
    proof {
        assert(out@ =~= otp_string_of(v));
    }
    out
}

} // verus!
