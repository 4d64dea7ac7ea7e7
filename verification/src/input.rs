//! What a person types at the console, read as a number.

use crate::text::{chars_of, strip_bounds, stripped, Margin};
use vstd::prelude::*;

verus! {

/// The value of `c` as a decimal digit, where it is one of `0` to `9`.
pub open spec fn digit_value(c: char) -> Option<int> {
    if 48 <= c as u32 <= 57 {
        Some(c as u32 - 48)
    } else {
        None
    }
}

/// Whether every character of `text` is a decimal digit.
pub open spec fn all_digits(text: Seq<char>) -> bool {
    forall|i: int| 0 <= i < text.len() ==> digit_value(#[trigger] text[i]) is Some
}

/// The number that the digits of `text` write in base ten; zero for no
/// digits.
pub open spec fn digits_value(text: Seq<char>) -> int
    decreases text.len(),
{
    if text.len() == 0 {
        0
    } else {
        digits_value(text.drop_last()) * 10 + digit_value(text.last())->Some_0
    }
}

/// The integer that `text` writes: an optional `+` or `-`, then one digit or
/// more and nothing else.
pub open spec fn integer(text: Seq<char>) -> Option<int> {
    let signed = text.len() > 0 && (text[0] == '-' || text[0] == '+');
    let digits = if signed {
        text.skip(1)
    } else {
        text
    };
    if digits.len() > 0 && all_digits(digits) {
        if signed && text[0] == '-' {
            Some(-digits_value(digits))
        } else {
            Some(digits_value(digits))
        }
    } else {
        None
    }
}

/// The count that a line of input holds: the integer that the line writes
/// once the white space around it is removed, where it fits 32 bits.
pub open spec fn count_of(line: Seq<char>) -> Option<i32> {
    match integer(stripped(line, Margin::WhiteSpace)) {
        Some(value) => if i32::MIN <= value <= i32::MAX {
            Some(value as i32)
        } else {
            None
        },
        None => None,
    }
}

/// The digits of a text write no less than its first digits do.
proof fn lemma_value_grows(text: Seq<char>, k: int)
    requires
        all_digits(text),
        0 <= k <= text.len(),
    ensures
        0 <= digits_value(text.take(k)) <= digits_value(text),
    decreases text.len() - k,
{
    if k == text.len() {
        assert(text.take(k) =~= text);
        lemma_value_is_natural(text);
    } else {
        let shorter = text.drop_last();
        assert(shorter.take(k) =~= text.take(k));
        assert forall|i: int| 0 <= i < shorter.len() implies digit_value(
            #[trigger] shorter[i],
        ) is Some by {
            assert(shorter[i] == text[i]);
        }
        lemma_value_grows(shorter, k);
        lemma_value_is_natural(shorter);
    }
}

/// Digits write a number that is not negative.
proof fn lemma_value_is_natural(text: Seq<char>)
    requires
        all_digits(text),
    ensures
        0 <= digits_value(text),
    decreases text.len(),
{
    if text.len() > 0 {
        let shorter = text.drop_last();
        assert forall|i: int| 0 <= i < shorter.len() implies digit_value(
            #[trigger] shorter[i],
        ) is Some by {
            assert(shorter[i] == text[i]);
        }
        lemma_value_is_natural(shorter);
    }
}

/// Reads the count of songs from a line of input. White space around the
/// number is ignored; anything else that is no integer of 32 bits gives
/// `None`.
#[verifier::loop_isolation(false)]
pub fn parse_count(line: &str) -> (r: Option<i32>)
    ensures
        r == count_of(line@),
{
    let chars = chars_of(line);
    let (from, to) = strip_bounds(&chars, 0, chars.len(), Margin::WhiteSpace);
    assert(chars@.subrange(0, chars.len() as int) =~= line@);
    let ghost text = chars@.subrange(from as int, to as int);
    if from == to {
        return None;
    }
    assert(text[0] == chars@[from as int]);
    let negative = chars[from] == '-';
    let signed = negative || chars[from] == '+';
    let start: usize = if signed {
        from + 1
    } else {
        from
    };
    let ghost digits = chars@.subrange(start as int, to as int);
    assert(digits =~= if signed {
        text.skip(1)
    } else {
        text
    });
    if start == to {
        return None;
    }
    let mut value: i64 = 0;
    let mut i: usize = start;
    assert(digits.take(0) =~= Seq::<char>::empty());
    while i < to
        invariant
            start <= i <= to <= chars.len(),
            digits == chars@.subrange(start as int, to as int),
            all_digits(digits.take(i - start)),
            value == digits_value(digits.take(i - start)),
            0 <= value <= 2147483648,
        decreases to - i,
    {
        let code: u32 = chars[i] as u32;
        assert(digits[i - start] == chars@[i as int]);
        if code < 48 || code > 57 {
            assert(digit_value(digits[i - start]) is None);
            return None;
        }
        let next: i64 = value * 10 + (code - 48) as i64;
        proof {
            let longer = digits.take(i - start + 1);
            assert(longer.drop_last() =~= digits.take(i - start));
            assert(longer.last() == digits[i - start]);
            assert(next == digits_value(longer));
            assert forall|k: int| 0 <= k < longer.len() implies digit_value(
                #[trigger] longer[k],
            ) is Some by {
                if k < i - start {
                    assert(longer[k] == digits.take(i - start)[k]);
                }
            }
        }
        if next > 2147483648 {
            proof {
                if all_digits(digits) {
                    lemma_value_grows(digits, i - start + 1);
                }
            }
            return None;
        }
        value = next;
        i += 1;
    }
    assert(digits.take(to - start) =~= digits);
    if negative {
        Some((-value) as i32)
    } else if value <= 2147483647 {
        Some(value as i32)
    } else {
        None
    }
}

} // verus!
