//! Numbers that are written in decimal digits.
use crate::text;
use vstd::prelude::*;

verus! {

/// The number that decimal digits write.
pub open spec fn decimal(digits: Seq<char>) -> int
    decreases digits.len(),
{
    if digits.len() == 0 {
        0
    } else {
        10 * decimal(digits.drop_last()) + (digits.last() as int - '0' as int)
    }
}

pub open spec fn all_digits(text: Seq<char>) -> bool {
    forall|i: int| 0 <= i < text.len() ==> text::is_ascii_digit(#[trigger] text[i])
}

/// The text behind an optional plus sign.
pub open spec fn unsigned_part(text: Seq<char>) -> Seq<char> {
    if text.len() > 0 && text[0] == '+' {
        text.skip(1)
    } else {
        text
    }
}

/// A text that writes an unsigned number: digits behind an optional plus sign.
pub open spec fn written_number(text: Seq<char>) -> Option<int> {
    let digits = unsigned_part(text);
    if digits.len() > 0 && all_digits(digits) {
        Some(decimal(digits))
    } else {
        None
    }
}

/// The number that a text writes, where it writes one that is no larger than `limit`.
pub fn parse_number(value: &str, limit: u32) -> (number: Option<u32>)
    requires
        limit <= 0xffff,
    ensures
        match number {
            Some(number) => written_number(value@) == Some(number as int) && number <= limit,
            None => written_number(value@) matches Some(number) ==> number > limit,
        },
{
    let chars: Vec<char> = text::chars_of(value);
    let start: usize = if chars.len() > 0 && chars[0] == '+' {
        1
    } else {
        0
    };
    let ghost digits = value@.skip(start as int);
    proof {
        assert(value@.skip(0) == value@);
        assert(digits.take(0) == Seq::<char>::empty());
    }
    if start == chars.len() {
        return None;
    }
    let mut number: u32 = 0;
    let mut over: bool = false;
    let mut i: usize = start;
    while i < chars.len()
        invariant
            start <= i <= chars.len(),
            start == 0 || start == 1,
            limit <= 0xffff,
            chars@ == value@,
            digits == value@.skip(start as int),
            digits == unsigned_part(value@),
            forall|k: int| 0 <= k < i - start ==> text::is_ascii_digit(#[trigger] digits[k]),
            number <= limit,
            !over ==> number == decimal(digits.take(i - start)),
            over ==> decimal(digits.take(i - start)) > limit,
        decreases chars.len() - i,
    {
        let c: char = chars[i];
        let ghost part = digits.take(i - start);
        let ghost more = digits.take(i - start + 1);
        proof {
            assert(digits[i - start] == c);
            assert(more.drop_last() == part);
            assert(more.last() == c);
        }
        if c < '0' || c > '9' {
            proof {
                assert(!text::is_ascii_digit(digits[i - start]));
            }
            return None;
        }
        let digit: u32 = c as u32 - 48;
        if !over {
            let grown: u32 = number * 10 + digit;
            if grown > limit {
                over = true;
            } else {
                number = grown;
            }
        }
        i = i + 1;
    }
    proof {
        assert(digits.take(i - start) == digits);
    }
    if over {
        None
    } else {
        Some(number)
    }
}

/// One more digit behind a number makes it ten times as large and adds the digit, a plus sign in
/// front changes nothing, and a text with anything else in it writes no number.
pub proof fn digits_write_numbers(digits: Seq<char>, digit: char)
    requires
        '0' <= digit <= '9',
    ensures
        written_number(seq![digit]) == Some(digit as int - 48),
        written_number(digits) is Some ==> written_number(digits.push(digit)) == Some(
            10 * written_number(digits)->0 + (digit as int - 48),
        ),
        digits.len() > 0 && digits[0] != '+' ==> written_number(seq!['+'] + digits)
            == written_number(digits),
        written_number(Seq::empty()) is None,
        forall|i: int|
            0 <= i < digits.len() && !('0' <= #[trigger] digits[i] <= '9') && !(i == 0 && digits[i]
                == '+') ==> written_number(digits) is None,
{
    let one = seq![digit];
    assert(one.drop_last() =~= Seq::<char>::empty());
    assert(decimal(one.drop_last()) == 0);
    assert(unsigned_part(one) == one);
    assert(one.last() == digit);
    if written_number(digits) is Some {
        let part = unsigned_part(digits);
        let more = digits.push(digit);
        assert(more[0] == digits[0]);
        assert(unsigned_part(more) =~= part.push(digit));
        assert(part.push(digit).drop_last() =~= part);
        assert forall|i: int| 0 <= i < part.push(digit).len() implies text::is_ascii_digit(
            #[trigger] part.push(digit)[i],
        ) by {
            if i < part.len() {
                assert(part.push(digit)[i] == part[i]);
            }
        }
    }
    if digits.len() > 0 && digits[0] != '+' {
        assert((seq!['+'] + digits).skip(1) =~= digits);
    }
    assert forall|i: int|
        0 <= i < digits.len() && !('0' <= #[trigger] digits[i] <= '9') && !(i == 0 && digits[i]
            == '+') implies written_number(digits) is None by {
        let part = unsigned_part(digits);
        if digits[0] == '+' {
            assert(part[i - 1] == digits[i]);
        } else {
            assert(part[i] == digits[i]);
        }
    }
}

} // verus!
