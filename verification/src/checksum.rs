use vstd::prelude::*;

use crate::digits::{all_digits, char_of_val, char_to_digit, check_digit_char, digit_val, is_digit};
use crate::text::str_to_chars;

verus! {

/// The mod-10 double-and-sum contribution of one digit. `from_right` is the
/// digit's distance from the rightmost position: every second digit counting
/// from the rightmost is doubled, and 9 is subtracted when the doubled value
/// exceeds 9.
pub open spec fn luhn_term(c: char, from_right: int) -> int {
    let d = digit_val(c);
    if from_right % 2 == 1 {
        if 2 * d > 9 {
            2 * d - 9
        } else {
            2 * d
        }
    } else {
        d
    }
}

/// Sum of the contributions of the first `k` characters of `s`, with the whole
/// sequence shifted `shift` positions away from the rightmost position. The
/// digit at index `i` stands at distance `s.len() - 1 - i + shift` from the
/// right.
pub open spec fn luhn_sum_from(s: Seq<char>, k: int, shift: int) -> int
    decreases k,
{
    if k <= 0 {
        0
    } else {
        luhn_sum_from(s, k - 1, shift) + luhn_term(s[k - 1], s.len() - k + shift)
    }
}

/// The mod-10 double-and-sum total of a digit sequence.
pub open spec fn luhn_sum(s: Seq<char>) -> int {
    luhn_sum_from(s, s.len() as int, 0)
}

/// The checksum predicate: a non-empty digit sequence whose total is
/// congruent to 0 modulo 10.
pub open spec fn luhn_valid(s: Seq<char>) -> bool {
    &&& s.len() > 0
    &&& all_digits(s)
    &&& luhn_sum(s) % 10 == 0
}

/// Appending a character shifts every earlier digit one position away from
/// the right, and adds the new character's contribution at distance 0.
proof fn lemma_luhn_sum_push_aux(s: Seq<char>, c: char, k: int)
    requires
        0 <= k <= s.len(),
    ensures
        luhn_sum_from(s.push(c), k, 0) == luhn_sum_from(s, k, 1),
    decreases k,
{
    if k > 0 {
        lemma_luhn_sum_push_aux(s, c, k - 1);
        assert(s.push(c)[k - 1] == s[k - 1]);
    }
}

/// The total of `s.push(c)` is the shifted total of `s` plus the value of `c`.
pub proof fn lemma_luhn_sum_push(s: Seq<char>, c: char)
    ensures
        luhn_sum(s.push(c)) == luhn_sum_from(s, s.len() as int, 1) + digit_val(c),
{
    let p = s.push(c);
    assert(luhn_sum(p) == luhn_sum_from(p, s.len() as int, 0) + luhn_term(p[s.len() as int], 0));
    lemma_luhn_sum_push_aux(s, c, s.len() as int);
    assert(p[s.len() as int] == c);
}

/// Computes `luhn_sum_from(v@, v@.len(), shift) % 10` for `shift` 0 or 1.
fn luhn_sum_mod10(v: &Vec<char>, shift: u8) -> (m: u8)
    requires
        all_digits(v@),
        shift <= 1,
    ensures
        m == luhn_sum_from(v@, v@.len() as int, shift as int) % 10,
        m <= 9,
{
    let n: usize = v.len();
    let mut acc: u8 = 0;
    let mut k: usize = 0;
    while k < n
        invariant
            0 <= k <= n,
            n == v@.len(),
            all_digits(v@),
            shift <= 1,
            acc == luhn_sum_from(v@, k as int, shift as int) % 10,
            acc <= 9,
        decreases n - k,
    {
        let c: char = v[k];
        let d: u8 = char_to_digit(c);
        // distance from the right, plus the shift
        let from_right: usize = n - 1 - k + shift as usize;
        let t: u8 = if from_right % 2 == 1 {
            let dd: u8 = 2 * d;
            if dd > 9 {
                dd - 9
            } else {
                dd
            }
        } else {
            d
        };
        proof {
            assert(t == luhn_term(v@[k as int], v@.len() - (k + 1) + shift));
            vstd::arithmetic::div_mod::lemma_add_mod_noop(
                luhn_sum_from(v@, k as int, shift as int),
                t as int,
                10,
            );
        }
        acc = (acc + t) % 10;
        k = k + 1;
    }
    acc
}

/// Computes the single check digit that makes the payload followed by that
/// digit satisfy the checksum predicate.
pub fn checksum_digit(payload: &Vec<char>) -> (c: char)
    requires
        all_digits(payload@),
    ensures
        is_digit(c),
        c == char_of_val(((10 - luhn_sum_from(payload@, payload@.len() as int, 1) % 10) % 10) as u8),
        luhn_valid(payload@.push(c)),
{
    let m: u8 = luhn_sum_mod10(payload, 1);
    let d: u8 = (10 - m) % 10;
    let c = crate::digits::digit_to_char(d);
    proof {
        let s1 = luhn_sum_from(payload@, payload@.len() as int, 1);
        lemma_luhn_sum_push(payload@, c);
        vstd::arithmetic::div_mod::lemma_add_mod_noop(s1, d as int, 10);
        assert((m + d as int) % 10 == 0);
        assert(forall|i: int|
            0 <= i < payload@.push(c).len() ==> is_digit(#[trigger] payload@.push(c)[i]));
    }
    c
}

/// Returns whether the full digit sequence, including its trailing check
/// digit, is self-consistent under the mod-10 double-and-sum rule.
pub fn is_valid(s: &str) -> (r: bool)
    ensures
        r == luhn_valid(s@),
{
    let v: Vec<char> = str_to_chars(s);
    let n: usize = v.len();
    if n == 0 {
        return false;
    }
    let mut k: usize = 0;
    while k < n
        invariant
            0 <= k <= n,
            n == v@.len(),
            v@ == s@,
            forall|i: int| 0 <= i < k ==> is_digit(#[trigger] v@[i]),
        decreases n - k,
    {
        if !check_digit_char(v[k]) {
            return false;
        }
        k = k + 1;
    }
    let m: u8 = luhn_sum_mod10(&v, 0);
    m == 0
}

} // verus!
