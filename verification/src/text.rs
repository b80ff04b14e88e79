//! What form fields are read as: text without the white space around it, and
//! one-time codes as numbers.

use std::num::ParseIntError;
use std::str::FromStr;
use vstd::prelude::*;

verus! {

#[verifier::external_type_specification]
#[verifier::external_body]
pub struct ExParseIntError(ParseIntError);

/// Whether `c` has the Unicode property `White_Space`.
pub open spec fn is_white_space(c: char) -> bool {
    let p = c as u32;
    ||| 0x09 <= p <= 0x0d
    ||| p == 0x20
    ||| p == 0x85
    ||| p == 0xa0
    ||| p == 0x1680
    ||| 0x2000 <= p <= 0x200a
    ||| p == 0x2028
    ||| p == 0x2029
    ||| p == 0x202f
    ||| p == 0x205f
    ||| p == 0x3000
}

/// `s` without the white space it begins with.
pub open spec fn trim_start_spec(s: Seq<char>) -> Seq<char>
    decreases s.len(),
{
    if s.len() > 0 && is_white_space(s[0]) {
        trim_start_spec(s.skip(1))
    } else {
        s
    }
}

/// `s` without the white space it ends with.
pub open spec fn trim_end_spec(s: Seq<char>) -> Seq<char>
    decreases s.len(),
{
    if s.len() > 0 && is_white_space(s.last()) {
        trim_end_spec(s.drop_last())
    } else {
        s
    }
}

/// `s` without the white space on either side.
pub open spec fn trim_spec(s: Seq<char>) -> Seq<char> {
    trim_end_spec(trim_start_spec(s))
}

/// Whether `c` is one of `0`..`9`.
pub open spec fn is_decimal_digit(c: char) -> bool {
    0x30 <= c as u32 <= 0x39
}

/// The number that a run of decimal digits spells.
pub open spec fn decimal_value(digits: Seq<char>) -> nat
    decreases digits.len(),
{
    if digits.len() == 0 {
        0
    } else {
        decimal_value(digits.drop_last()) * 10 + (digits.last() as u32 - 0x30) as nat
    }
}

/// The digits of a numeral: all of it but a plus sign in front.
pub open spec fn numeral_digits(s: Seq<char>) -> Seq<char> {
    if s.len() > 0 && s[0] == '+' {
        s.skip(1)
    } else {
        s
    }
}

/// The number that `s` is the decimal numeral of: one or more digits, a plus
/// sign before them or none, nothing else, and a value that fits 32 bits.
pub open spec fn parse_u32_spec(s: Seq<char>) -> Option<u32> {
    let digits = numeral_digits(s);
    if digits.len() > 0 && (forall|i: int| 0 <= i < digits.len() ==> is_decimal_digit(#[trigger] digits[i]))
        && decimal_value(digits) <= u32::MAX {
        Some(decimal_value(digits) as u32)
    } else {
        None
    }
}

/// `str::trim`: the slice left when leading and trailing characters with the
/// property `White_Space` are taken off.
#[verifier::external_body]
fn trim(s: &str) -> (trimmed: &str)
    ensures
        trimmed@ == trim_spec(s@),
{
    s.trim()
}

/// `u32::from_str`: succeeds exactly on decimal numerals that fit, an
/// optional plus sign in front, and gives their value.
#[verifier::external_body]
fn parse_u32(s: &str) -> (parsed: Result<u32, ParseIntError>)
    ensures
        parsed is Ok <==> parse_u32_spec(s@) is Some,
        parsed matches Ok(n) ==> parse_u32_spec(s@) == Some(n),
{
    u32::from_str(s)
}

/// The one-time code that a form field holds, white space around it aside.
pub open spec fn totp_spec(field: Seq<char>) -> Option<u32> {
    parse_u32_spec(trim_spec(field))
}

/// Reads a one-time code from a form field: nothing where the field, white
/// space aside, is no numeral.
pub fn parse_totp(field: &str) -> (code: Option<u32>)
    ensures
        code == totp_spec(field@),
{
    match parse_u32(trim(field)) {
        Ok(n) => Some(n),
        Err(_) => None,
    }
}

/// A form field without the white space around it.
pub fn trimmed(field: &str) -> (text: String)
    ensures
        text@ == trim_spec(field@),
{
    trim(field).to_string()
}

} // verus!
