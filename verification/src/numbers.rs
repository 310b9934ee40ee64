//! Numbers as they are written and as they are read.

use vstd::prelude::*;

use crate::compiler_errors::{decimal, digit};
use crate::parser::{all_digits, digits_value, is_digit, number_of};

verus! {

proof fn digits_read_back(value: nat)
    ensures
        decimal(value).len() > 0,
        all_digits(decimal(value)),
        digits_value(decimal(value)) == value,
    decreases value,
{
    if value < 10 {
        let text = decimal(value);
        assert(text == seq![digit(value as int)]);
        assert(text.drop_last() == Seq::<char>::empty());
        assert(digits_value(text.drop_last()) == 0);
        assert(text.last() as int == '0' as int + value);
    } else {
        let front = decimal(value / 10);
        let last = digit((value % 10) as int);
        digits_read_back(value / 10);
        let text = front.push(last);
        assert(text.drop_last() == front);
        assert(text.last() == last);
        assert(last as int == '0' as int + value % 10);
        assert(is_digit(last));
        assert forall|i: int| 0 <= i < text.len() implies is_digit(#[trigger] text[i]) by {
            if i < front.len() {
                assert(is_digit(front[i]));
            }
        }
    }
}

/// A number that is written out is read as the same number, with or without a sign.
pub proof fn written_numbers_read_back(value: nat)
    requires
        value <= i64::MAX,
    ensures
        number_of(decimal(value)) == Some(value as i64),
        number_of(seq!['+'] + decimal(value)) == Some(value as i64),
        number_of(seq!['-'] + decimal(value)) == Some((-(value as int)) as i64),
{
    let text = decimal(value);
    digits_read_back(value);
    assert(is_digit(text[0]));
    let plus = seq!['+'] + text;
    let minus = seq!['-'] + text;
    assert(plus[0] == '+' && plus.skip(1) == text);
    assert(minus[0] == '-' && minus.skip(1) == text);
}

/// What is read as a number is digits behind at most one sign.
pub proof fn other_text_is_no_number(chars: Seq<char>)
    requires
        chars.len() == 0 || exists|i: int|
            0 < i < chars.len() && !is_digit(#[trigger] chars[i]) || chars.len() == 1 && !is_digit(
                chars[0],
            ) || !is_digit(chars[0]) && chars[0] != '+' && chars[0] != '-',
    ensures
        number_of(chars) is None,
{
    let part = crate::parser::unsigned_part(chars);
    if chars.len() > 0 {
        let i = choose|i: int|
            0 < i < chars.len() && !is_digit(#[trigger] chars[i]) || chars.len() == 1 && !is_digit(
                chars[0],
            ) || !is_digit(chars[0]) && chars[0] != '+' && chars[0] != '-';
        if part.len() > 0 && all_digits(part) {
            if part == chars {
                assert(is_digit(part[0]));
                if 0 < i < chars.len() {
                    assert(is_digit(part[i]));
                }
            } else if 0 < i < chars.len() {
                assert(part[i - 1] == chars[i]);
            }
        }
    }
}

} // verus!
