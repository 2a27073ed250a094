use vstd::prelude::*;

use crate::digits::{all_digits, char_to_digit, check_digit_char, digit_val, is_digit};
use crate::text::str_to_chars;

verus! {

/// The numeric value of a decimal digit sequence, most significant digit
/// first.
pub open spec fn dec_value(s: Seq<char>) -> int
    decreases s.len(),
{
    if s.len() == 0 {
        0
    } else {
        dec_value(s.drop_last()) * 10 + digit_val(s.last())
    }
}

/// An amount string is accepted exactly when it is a non-empty sequence of
/// decimal digits whose value fits in a `u64`.
pub open spec fn spec_parse_amount(s: Seq<char>) -> Option<u64> {
    if s.len() > 0 && all_digits(s) && dec_value(s) <= u64::MAX {
        Some(dec_value(s) as u64)
    } else {
        None
    }
}

/// The value of a digit sequence is non-negative.
proof fn lemma_dec_value_nonneg(s: Seq<char>)
    requires
        all_digits(s),
    ensures
        dec_value(s) >= 0,
    decreases s.len(),
{
    if s.len() > 0 {
        assert(all_digits(s.drop_last()));
        lemma_dec_value_nonneg(s.drop_last());
    }
}

/// The value of a digit sequence is at least the value of any of its
/// prefixes.
proof fn lemma_dec_value_prefix_le(s: Seq<char>, k: int)
    requires
        all_digits(s),
        0 <= k <= s.len(),
    ensures
        dec_value(s.take(k)) <= dec_value(s),
    decreases s.len(),
{
    if k < s.len() {
        assert(all_digits(s.drop_last()));
        assert(s.drop_last().take(k) =~= s.take(k));
        lemma_dec_value_prefix_le(s.drop_last(), k);
        lemma_dec_value_nonneg(s.drop_last());
    } else {
        assert(s.take(k) =~= s);
    }
}

/// Parses a non-negative integer amount written in decimal. Returns `None`
/// on an empty string, a non-digit character, or a value above `u64::MAX`.
pub fn parse_amount(s: &str) -> (r: Option<u64>)
    ensures
        r == spec_parse_amount(s@),
{
    let v: Vec<char> = str_to_chars(s);
    let n: usize = v.len();
    if n == 0 {
        return None;
    }
    let mut acc: u64 = 0;
    let mut k: usize = 0;
    while k < n
        invariant
            0 <= k <= n,
            n == v@.len(),
            v@ == s@,
            forall|i: int| 0 <= i < k ==> is_digit(#[trigger] v@[i]),
            acc == dec_value(v@.take(k as int)),
        decreases n - k,
    {
        let c: char = v[k];
        if !check_digit_char(c) {
            return None;
        }
        let d: u8 = char_to_digit(c);
        proof {
            assert(v@.take(k + 1).drop_last() =~= v@.take(k as int));
            assert(v@.take(k + 1).last() == v@[k as int]);
        }
        let limit: u64 = (u64::MAX - d as u64) / 10;
        proof {
            vstd::arithmetic::div_mod::lemma_fundamental_div_mod(u64::MAX - d as int, 10);
            vstd::arithmetic::div_mod::lemma_mod_division_less_than_divisor(
                u64::MAX - d as int,
                10,
            );
        }
        if acc > limit {
            proof {
                assert(dec_value(v@.take(k + 1)) == acc * 10 + d);
                if all_digits(v@) {
                    lemma_dec_value_prefix_le(v@, k + 1);
                    assert(dec_value(v@) > u64::MAX);
                }
            }
            return None;
        }
        acc = acc * 10 + d as u64;
        k = k + 1;
    }
    proof {
        assert(v@.take(n as int) =~= v@);
    }
    Some(acc)
}

} // verus!
