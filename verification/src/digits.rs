//! Decimal digits, and numbers written at a fixed width.

use vstd::prelude::*;

verus! {

/// The ten decimal digits of ASCII.
pub open spec fn is_digit(c: char) -> bool {
    '0' <= c && c <= '9'
}

/// The number that a decimal digit stands for.
pub open spec fn digit_value(c: char) -> int
    recommends
        is_digit(c),
{
    c as int - '0' as int
}

/// The number written by the two digits at `at`.
pub open spec fn two_at(s: Seq<char>, at: int) -> int {
    10 * digit_value(s[at]) + digit_value(s[at + 1])
}

/// The number written by the four digits at `at`.
pub open spec fn four_at(s: Seq<char>, at: int) -> int {
    1000 * digit_value(s[at]) + 100 * digit_value(s[at + 1]) + 10 * digit_value(s[at + 2])
        + digit_value(s[at + 3])
}

/// The character of a decimal digit.
pub open spec fn digit_char(digit: int) -> char
    recommends
        0 <= digit <= 9,
{
    (('0' as u8) + digit) as u8 as char
}

/// `value` in two decimal digits, zero-padded.
pub open spec fn two_digits(value: int) -> Seq<char>
    recommends
        0 <= value <= 99,
{
    seq![digit_char(value / 10), digit_char(value % 10)]
}

/// `value` in four decimal digits, zero-padded.
pub open spec fn four_digits(value: int) -> Seq<char>
    recommends
        0 <= value <= 9999,
{
    seq![
        digit_char(value / 1000),
        digit_char(value / 100 % 10),
        digit_char(value / 10 % 10),
        digit_char(value % 10),
    ]
}

/// The value of the character at `at`, if it is a decimal digit of ASCII.
pub(crate) fn digit_at(text: &str, at: usize) -> (value: Option<u32>)
    requires
        at < text@.len(),
    ensures
        value is Some <==> is_digit(text@[at as int]),
        value matches Some(digit) ==> digit == digit_value(text@[at as int]),
{
    let c = text.get_char(at);
    if '0' <= c && c <= '9' {
        Some(c as u32 - '0' as u32)
    } else {
        None
    }
}

/// The digit as a string of one character.
fn digit_text(digit: u32) -> (text: &'static str)
    requires
        digit <= 9,
    ensures
        text@ == seq![digit_char(digit as int)],
{
    proof {
        reveal_strlit("0");
        reveal_strlit("1");
        reveal_strlit("2");
        reveal_strlit("3");
        reveal_strlit("4");
        reveal_strlit("5");
        reveal_strlit("6");
        reveal_strlit("7");
        reveal_strlit("8");
        reveal_strlit("9");
    }
    let text = match digit {
        0 => "0",
        1 => "1",
        2 => "2",
        3 => "3",
        4 => "4",
        5 => "5",
        6 => "6",
        7 => "7",
        8 => "8",
        _ => "9",
    };
    assert(text@ =~= seq![digit_char(digit as int)]);
    text
}

/// Writes `value` behind `out` in two digits.
pub(crate) fn push_two_digits(out: &mut String, value: u32)
    requires
        value <= 99,
    ensures
        final(out)@ == old(out)@ + two_digits(value as int),
{
    out.append(digit_text(value / 10));
    out.append(digit_text(value % 10));
    assert(out@ =~= old(out)@ + two_digits(value as int));
}

/// Writes `value` behind `out` in four digits.
pub(crate) fn push_four_digits(out: &mut String, value: u32)
    requires
        value <= 9999,
    ensures
        final(out)@ == old(out)@ + four_digits(value as int),
{
    out.append(digit_text(value / 1000));
    out.append(digit_text(value / 100 % 10));
    out.append(digit_text(value / 10 % 10));
    out.append(digit_text(value % 10));
    assert(out@ =~= old(out)@ + four_digits(value as int));
}

/// A decimal digit is the character of its value.
pub proof fn lemma_digit_char_of_value(c: char)
    requires
        is_digit(c),
    ensures
        0 <= digit_value(c) <= 9,
        digit_char(digit_value(c)) == c,
{
}

/// A number below ten is the value of its character.
pub proof fn lemma_digit_value_of_char(digit: int)
    requires
        0 <= digit <= 9,
    ensures
        is_digit(digit_char(digit)),
        digit_value(digit_char(digit)) == digit,
{
}

/// Two digits are the two-digit text of the number they write.
pub proof fn lemma_two_digits_written(a: char, b: char)
    requires
        is_digit(a),
        is_digit(b),
    ensures
        two_digits(10 * digit_value(a) + digit_value(b)) == seq![a, b],
{
    let value = 10 * digit_value(a) + digit_value(b);
    assert(value / 10 == digit_value(a) && value % 10 == digit_value(b));
    assert(two_digits(value) =~= seq![a, b]);
}

/// Four digits are the four-digit text of the number they write.
pub proof fn lemma_four_digits_written(a: char, b: char, c: char, d: char)
    requires
        is_digit(a),
        is_digit(b),
        is_digit(c),
        is_digit(d),
    ensures
        four_digits(
            1000 * digit_value(a) + 100 * digit_value(b) + 10 * digit_value(c) + digit_value(d),
        ) == seq![a, b, c, d],
{
    let thousands = digit_value(a);
    let hundreds = digit_value(b);
    let tens = digit_value(c);
    let ones = digit_value(d);
    let value = 1000 * thousands + 100 * hundreds + 10 * tens + ones;
    lemma_decimal_places(thousands, hundreds, tens, ones);
    assert(digit_char(thousands) == a && digit_char(hundreds) == b && digit_char(tens) == c
        && digit_char(ones) == d);
    assert(four_digits(value) =~= seq![a, b, c, d]);
}

/// The decimal places of a number below ten thousand.
proof fn lemma_decimal_places(thousands: int, hundreds: int, tens: int, ones: int)
    requires
        0 <= thousands <= 9,
        0 <= hundreds <= 9,
        0 <= tens <= 9,
        0 <= ones <= 9,
    ensures
        ({
            let value = 1000 * thousands + 100 * hundreds + 10 * tens + ones;
            &&& value / 1000 == thousands
            &&& value / 100 % 10 == hundreds
            &&& value / 10 % 10 == tens
            &&& value % 10 == ones
        }),
{
    let value = 1000 * thousands + 100 * hundreds + 10 * tens + ones;
    assert(value / 1000 == thousands) by {
        assert(value == 1000 * thousands + (100 * hundreds + 10 * tens + ones));
    }
    assert(value / 100 == 10 * thousands + hundreds) by {
        assert(value == 100 * (10 * thousands + hundreds) + (10 * tens + ones));
    }
    assert(value / 10 == 100 * thousands + 10 * hundreds + tens) by {
        assert(value == 10 * (100 * thousands + 10 * hundreds + tens) + ones);
    }
    assert((10 * thousands + hundreds) % 10 == hundreds);
    assert((10 * (10 * thousands + hundreds) + tens) % 10 == tens);
    assert(value % 10 == ones) by {
        assert(value == 10 * (100 * thousands + 10 * hundreds + tens) + ones);
    }
}

/// The two-digit text of a number below a hundred is two digits that write
/// the number.
pub proof fn lemma_two_digits_read(value: int)
    requires
        0 <= value <= 99,
    ensures
        is_digit(two_digits(value)[0]),
        is_digit(two_digits(value)[1]),
        two_at(two_digits(value), 0) == value,
{
}

/// The four-digit text of a number below ten thousand is four digits that
/// write the number.
pub proof fn lemma_four_digits_read(value: int)
    requires
        0 <= value <= 9999,
    ensures
        is_digit(four_digits(value)[0]),
        is_digit(four_digits(value)[1]),
        is_digit(four_digits(value)[2]),
        is_digit(four_digits(value)[3]),
        four_at(four_digits(value), 0) == value,
{
    let thousands = value / 1000;
    let hundreds = value / 100 % 10;
    let tens = value / 10 % 10;
    let ones = value % 10;
    assert(value == 1000 * thousands + 100 * hundreds + 10 * tens + ones) by {
        let upper = value / 10;
        let top = upper / 10;
        assert(value == 10 * upper + ones);
        assert(upper == 10 * top + tens);
        assert(value / 100 == top);
        assert(top == 10 * (top / 10) + hundreds);
        assert(value / 1000 == top / 10);
    }
    assert(0 <= thousands <= 9 && 0 <= hundreds <= 9 && 0 <= tens <= 9 && 0 <= ones <= 9);
    lemma_digit_value_of_char(thousands);
    lemma_digit_value_of_char(hundreds);
    lemma_digit_value_of_char(tens);
    lemma_digit_value_of_char(ones);
}

} // verus!
