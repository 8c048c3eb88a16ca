//! Parsing an integer literal's decimal digits into a 128-bit signed
//! accumulator.
//!
//! The widest signed representation is used so that no precision is lost
//! before the value is coerced to the declared target type.  Text that is
//! empty, holds a non-digit character, or denotes a value above the
//! accumulator's maximum does not parse.

use vstd::prelude::*;

verus! {

/// Whether `c` is a decimal digit.
pub open spec fn is_digit(c: char) -> bool {
    '0' <= c && c <= '9'
}

/// The numeric value of the digit `c`.
pub open spec fn digit_value(c: char) -> int {
    c as int - '0' as int
}

/// Whether every character of `s` is a decimal digit.
pub open spec fn all_digits(s: Seq<char>) -> bool {
    forall|i: int| 0 <= i < s.len() ==> is_digit(#[trigger] s[i])
}

/// The value denoted by the digit string `s`, most significant digit first.
pub open spec fn digits_value(s: Seq<char>) -> int
    decreases s.len(),
{
    if s.len() == 0 {
        0
    } else {
        digits_value(s.drop_last()) * 10 + digit_value(s.last())
    }
}

/// What parsing a literal's decimal text yields: its value, exactly when the
/// text is a non-empty digit string denoting a value the accumulator can hold.
pub open spec fn parse_decimal_spec(s: Seq<char>) -> Option<i128> {
    if s.len() > 0 && all_digits(s) && digits_value(s) <= i128::MAX {
        Some(digits_value(s) as i128)
    } else {
        None
    }
}

/// A digit string denotes a non-negative value.
pub proof fn lemma_digits_value_nonneg(s: Seq<char>)
    requires
        all_digits(s),
    ensures
        digits_value(s) >= 0,
    decreases s.len(),
{
    if s.len() > 0 {
        assert(all_digits(s.drop_last())) by {
            assert(forall|i: int|
                0 <= i < s.drop_last().len() ==> s.drop_last()[i] == s[i]);
        }
        lemma_digits_value_nonneg(s.drop_last());
        assert(digits_value(s.drop_last()) * 10 >= 0) by (nonlinear_arith)
            requires digits_value(s.drop_last()) >= 0;
    }
}

/// Extending a digit string on the right can only grow its value.
pub proof fn lemma_digits_value_prefix(s: Seq<char>, i: int)
    requires
        all_digits(s),
        0 <= i <= s.len(),
    ensures
        digits_value(s.take(i)) <= digits_value(s),
    decreases s.len(),
{
    if i == s.len() {
        assert(s.take(i) =~= s);
    } else {
        let head = s.drop_last();
        assert(all_digits(head)) by {
            assert(forall|j: int| 0 <= j < head.len() ==> head[j] == s[j]);
        }
        lemma_digits_value_prefix(head, i);
        assert(head.take(i) =~= s.take(i));
        lemma_digits_value_nonneg(head);
        assert(digits_value(head) * 10 >= digits_value(head)) by (nonlinear_arith)
            requires digits_value(head) >= 0;
    }
}

/// Parses a decimal digit string into the 128-bit signed accumulator.
///
/// Returns the denoted value exactly when `digits` is non-empty, wholly made
/// of decimal digits, and in range; returns `None` otherwise.
pub fn parse_decimal(digits: &str) -> (r: Option<i128>)
    ensures
        r == parse_decimal_spec(digits@),
{
    broadcast use vstd::string::is_ascii_spec_bytes;

    if !digits.is_ascii() {
        proof {
            let ghost s = digits@;
            let i = choose|i: int| !(0 <= i < s.len() ==> '\0' <= #[trigger] s[i] <= '\u{7f}');
            assert(!is_digit(s[i]));
        }
        return None;
    }
    let bytes = digits.as_bytes();
    let n = bytes.len();
    proof {
        assert(bytes@.len() == digits@.len());
    }
    if n == 0 {
        return None;
    }
    let mut acc: i128 = 0;
    let mut i: usize = 0;
    while i < n
        invariant
            0 <= i <= n,
            n == digits@.len(),
            bytes@.len() == n,
            vstd::string::is_ascii(digits),
            forall|j: int| 0 <= j < n ==> bytes@[j] == digits@[j] as u8,
            forall|j: int| 0 <= j < i ==> is_digit(#[trigger] digits@[j]),
            0 <= acc,
            acc == digits_value(digits@.take(i as int)),
        decreases n - i,
    {
        let b = bytes[i];
        proof {
            let c = digits@[i as int];
            assert(c <= '\u{7f}');
            assert(is_digit(c) <==> 48 <= b && b <= 57);
        }
        if b < 48 || b > 57 {
            return None;
        }
        let d: i128 = (b - 48) as i128;
        proof {
            assert(digits@.take(i + 1).drop_last() =~= digits@.take(i as int));
            assert(digits@.take(i + 1).last() == digits@[i as int]);
        }
        let shifted = match acc.checked_mul(10) {
            Some(p) => p.checked_add(d),
            None => None,
        };
        match shifted {
            Some(next) => {
                acc = next;
            }
            None => {
                proof {
                    let s = digits@;
                    if all_digits(s) {
                        lemma_digits_value_prefix(s, i + 1);
                    }
                }
                return None;
            }
        }
        i = i + 1;
    }
    proof {
        assert(digits@.take(n as int) =~= digits@);
    }
    Some(acc)
}

} // verus!
