//! Reading a stretch of text as a decimal number.

use vstd::prelude::*;
use crate::pattern::is_digit;

verus! {

/// The value of a decimal digit.
pub open spec fn digit_value(c: char) -> int {
    c as int - '0' as int
}

/// The number that the digits of `s` write in base ten.
pub open spec fn decimal(s: Seq<char>) -> int
    decreases s.len(),
{
    if s.len() == 0 {
        0
    } else {
        decimal(s.drop_last()) * 10 + digit_value(s.last())
    }
}

/// Whether every character of `s` is a decimal digit.
pub open spec fn all_digits(s: Seq<char>) -> bool {
    forall|k: int| 0 <= k < s.len() ==> is_digit(#[trigger] s[k])
}

/// The number that `s` writes, where `s` is one digit or more and the number
/// fits a signed integer of 32 bits.
pub open spec fn number(s: Seq<char>) -> Option<i32> {
    if s.len() > 0 && all_digits(s) && decimal(s) <= i32::MAX {
        Some(decimal(s) as i32)
    } else {
        None
    }
}

/// A run of digits writes a number that is no less than the number that any
/// of its prefixes writes, and neither is negative.
pub proof fn lemma_decimal_grows(s: Seq<char>, m: int)
    requires
        all_digits(s),
        0 <= m <= s.len(),
    ensures
        0 <= decimal(s.take(m)) <= decimal(s),
    decreases s.len(),
{
    if s.len() == 0 {
        assert(s.take(m) =~= s);
    } else if m == s.len() {
        assert(s.take(m) =~= s);
        lemma_decimal_grows(s.drop_last(), m - 1);
        assert(is_digit(s[s.len() - 1]));
    } else {
        lemma_decimal_grows(s.drop_last(), m);
        assert(s.drop_last().take(m) =~= s.take(m));
        assert(is_digit(s[s.len() - 1]));
    }
}

/// Reads `digits` as a decimal number.
pub fn read_number(digits: &Vec<char>) -> (r: Option<i32>)
    ensures
        r == number(digits@),
{
    let ghost s = digits@;
    let n = digits.len();
    if n == 0 {
        return None;
    }
    let mut acc: i64 = 0;
    let mut k: usize = 0;
    assert(s.take(0) =~= Seq::<char>::empty());
    while k < n
        invariant
            k <= n,
            n == digits@.len(),
            s == digits@,
            all_digits(s.take(k as int)),
            acc == decimal(s.take(k as int)),
            0 <= acc <= i32::MAX,
        decreases n - k,
    {
        let c = digits[k];
        if !('0' <= c && c <= '9') {
            assert(!is_digit(s[k as int]));
            return None;
        }
        let d: i64 = (c as u32 - '0' as u32) as i64;
        let next: i64 = acc * 10 + d;
        proof {
            let t = s.take(k + 1);
            assert(t.drop_last() =~= s.take(k as int));
            assert(t.last() == c);
            assert(next == decimal(t));
            assert(all_digits(t)) by {
                assert forall|m: int| 0 <= m < t.len() implies is_digit(#[trigger] t[m]) by {
                    if m < k {
                        assert(s.take(k as int)[m] == t[m]);
                    }
                }
            }
            if next > i32::MAX {
                if all_digits(s) {
                    lemma_decimal_grows(s, k + 1);
                }
            }
        }
        if next > 2147483647 {
            return None;
        }
        acc = next;
        k += 1;
    }
    assert(s.take(k as int) =~= s);
    Some(acc as i32)
}

} // verus!
