use vstd::prelude::*;

verus! {

/// A character is a decimal digit, `'0'` (code point 48) through `'9'` (57).
pub open spec fn is_digit(c: char) -> bool {
    48 <= c as int && c as int <= 57
}

/// Numeric value of a decimal digit character.
pub open spec fn digit_val(c: char) -> int {
    c as int - 48
}

/// The digit character with value `v`.
pub open spec fn char_of_val(v: u8) -> char {
    (48 + v) as char
}

/// All characters of the sequence are decimal digits.
pub open spec fn all_digits(s: Seq<char>) -> bool {
    forall|i: int| 0 <= i < s.len() ==> is_digit(#[trigger] s[i])
}

/// Turns a digit value into its character.
pub fn digit_to_char(d: u8) -> (c: char)
    requires
        d <= 9,
    ensures
        c == char_of_val(d),
        is_digit(c),
        digit_val(c) == d,
{
    let b: u8 = 48 + d;
    b as char
}

/// Tests whether a character is a decimal digit.
pub fn check_digit_char(c: char) -> (r: bool)
    ensures
        r == is_digit(c),
{
    let u: u32 = c as u32;
    48 <= u && u <= 57
}

/// Numeric value of a decimal digit character.
pub fn char_to_digit(c: char) -> (v: u8)
    requires
        is_digit(c),
    ensures
        v == digit_val(c),
        v <= 9,
{
    let u: u32 = c as u32;
    (u - 48) as u8
}

} // verus!
