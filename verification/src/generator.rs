use vstd::prelude::*;

use crate::checksum::{checksum_digit, luhn_valid};
use crate::digits::{all_digits, digit_to_char, is_digit};
use crate::text::chars_to_string;

verus! {

/// Number of payload digits drawn at random for an account number; one check
/// digit follows them.
pub const PAYLOAD_LEN: usize = 15;

/// Full length of an account number: the payload and its check digit.
pub const ACCOUNT_NUMBER_LEN: usize = 16;

/// Length of a PIN.
pub const PIN_LEN: usize = 6;

/// Relies on `rand::random_range`: the result is sampled from the given
/// range, here 0 through 9.
#[verifier::external_body]
fn random_digit() -> (d: u8)
    ensures
        d <= 9,
{
    rand::random_range(0..=9u8)
}

/// Draws `n` decimal digit characters at random.
fn random_digit_chars(n: usize) -> (v: Vec<char>)
    ensures
        v@.len() == n,
        all_digits(v@),
{
    let mut v: Vec<char> = Vec::new();
    let mut k: usize = 0;
    while k < n
        invariant
            0 <= k <= n,
            v@.len() == k,
            all_digits(v@),
        decreases n - k,
    {
        let d: u8 = random_digit();
        let c: char = digit_to_char(d);
        v.push(c);
        proof {
            assert(forall|i: int| 0 <= i < v@.len() ==> is_digit(#[trigger] v@[i]));
        }
        k = k + 1;
    }
    v
}

/// Produces a candidate account number: `PAYLOAD_LEN` random digits followed
/// by the check digit that makes the whole string checksum-valid.
pub fn generate_account_number() -> (s: String)
    ensures
        s@.len() == ACCOUNT_NUMBER_LEN,
        luhn_valid(s@),
{
    let mut v: Vec<char> = random_digit_chars(PAYLOAD_LEN);
    let c: char = checksum_digit(&v);
    v.push(c);
    chars_to_string(v)
}

/// Produces a fresh PIN: `PIN_LEN` random digits.
pub fn generate_pin() -> (s: String)
    ensures
        s@.len() == PIN_LEN,
        all_digits(s@),
{
    let v: Vec<char> = random_digit_chars(PIN_LEN);
    chars_to_string(v)
}

} // verus!
