//! Text that the messages and records of the other modules are made of.

use vstd::prelude::*;
use vstd::string::*;
use vstd::utf8::*;

verus! {

/// The character of a decimal digit.
pub open spec fn digit_char(digit: int) -> char {
    ('0' as int + digit) as char
}

/// A number written in base ten, without leading zeros.
pub open spec fn decimal(number: nat) -> Seq<char>
    decreases number,
{
    if number < 10 {
        seq![digit_char(number as int)]
    } else {
        decimal(number / 10).push(digit_char((number % 10) as int))
    }
}

/// The text of one decimal digit.
fn digit_text(digit: u16) -> (text: &'static str)
    requires
        digit < 10,
    ensures
        text@ == seq![digit_char(digit as int)],
{
    proof {
        reveal_strlit("0");
        reveal_strlit("1");
        reveal_strlit("2");
        reveal_strlit("3");
        reveal_strlit("4");
        reveal_strlit("5");
        reveal_strlit("6");
        reveal_strlit("7");
        reveal_strlit("8");
        reveal_strlit("9");
    }
    match digit {
        0 => "0",
        1 => "1",
        2 => "2",
        3 => "3",
        4 => "4",
        5 => "5",
        6 => "6",
        7 => "7",
        8 => "8",
        _ => "9",
    }
}

/// Writes a number in base ten.
pub fn decimal_text(number: u16) -> (text: String)
    ensures
        text@ == decimal(number as nat),
        is_plain_number(text@),
        digits_value(text@) == number,
    decreases number,
{
    proof {
        lemma_decimal_has_the_value(number as nat);
        if number >= 10 {
            lemma_decimal_has_the_value((number / 10) as nat);
        }
    }
    if number < 10 {
        digit_text(number).to_owned()
    } else {
        let mut text = decimal_text(number / 10);
        text.append(digit_text(number % 10));
        text
    }
}

/// Puts two texts one after the other.
pub fn joined(head: &str, tail: &str) -> (text: String)
    ensures
        text@ == head@ + tail@,
{
    let mut text = head.to_owned();
    text.append(tail);
    text
}

/// The sixteen-bit numbers have at most five digits, and the digits are ASCII.
pub proof fn lemma_decimal_is_short(number: nat)
    requires
        number <= 0xffff,
    ensures
        1 <= decimal(number).len() <= 5,
        is_ascii_chars(decimal(number)),
        encode_utf8(decimal(number)).len() == decimal(number).len(),
{
    lemma_decimal_digits(number);
    reveal_with_fuel(power_of_ten, 6);
    lemma_decimal_len(number, 5);
    is_ascii_chars_encode_utf8(decimal(number));
}

/// Every character of a decimal number is an ASCII digit.
pub proof fn lemma_decimal_digits(number: nat)
    ensures
        forall|i: int|
            0 <= i < decimal(number).len() ==> '0' <= #[trigger] decimal(number)[i] <= '9',
        is_ascii_chars(decimal(number)),
    decreases number,
{
    if number >= 10 {
        lemma_decimal_digits(number / 10);
    }
}

/// Ten to the power of `digits`.
pub open spec fn power_of_ten(digits: nat) -> nat
    decreases digits,
{
    if digits == 0 {
        1
    } else {
        10 * power_of_ten((digits - 1) as nat)
    }
}

/// A number below ten to the power of `digits` has at most `digits` digits.
proof fn lemma_decimal_len(number: nat, digits: nat)
    requires
        digits >= 1,
        number < power_of_ten(digits),
    ensures
        1 <= decimal(number).len() <= digits,
    decreases digits,
{
    reveal_with_fuel(power_of_ten, 2);
    if number >= 10 {
        if digits == 1 {
            assert(power_of_ten(1) == 10);
        } else {
            lemma_decimal_len(number / 10, (digits - 1) as nat);
        }
    }
}

/// The number that decimal digits stand for, the most significant first.
pub open spec fn digits_value(digits: Seq<char>) -> nat
    decreases digits.len(),
{
    if digits.len() == 0 {
        0
    } else {
        (digits_value(digits.drop_last()) * 10 + (digits.last() as int - '0' as int)) as nat
    }
}

/// Whether a text is a number in base ten as one writes it: at least one digit,
/// and no zero before others.
pub open spec fn is_plain_number(text: Seq<char>) -> bool {
    &&& text.len() > 0
    &&& forall|i: int| 0 <= i < text.len() ==> '0' <= #[trigger] text[i] <= '9'
    &&& text.len() > 1 ==> text[0] != '0'
}

/// A number is written in digits that stand for it, without leading zeros, so
/// different numbers have different texts.
pub proof fn lemma_decimal_has_the_value(number: nat)
    ensures
        digits_value(decimal(number)) == number,
        decimal(number).len() > 0,
        forall|i: int|
            0 <= i < decimal(number).len() ==> '0' <= #[trigger] decimal(number)[i] <= '9',
        number > 0 ==> decimal(number)[0] != '0',
        number < 10 ==> decimal(number) == seq![('0' as int + number) as char],
    decreases number,
{
    lemma_decimal_digits(number);
    reveal_with_fuel(digits_value, 2);
    if number >= 10 {
        lemma_decimal_has_the_value(number / 10);
        assert(decimal(number).drop_last() =~= decimal(number / 10));
        assert(decimal(number)[0] == decimal(number / 10)[0]);
    } else {
        assert(decimal(number).drop_last() =~= Seq::empty());
    }
}

/// Every number as one writes it is how its value is written.
pub proof fn lemma_decimal_is_the_only_text(text: Seq<char>)
    requires
        is_plain_number(text),
    ensures
        decimal(digits_value(text)) == text,
        text.len() > 1 ==> digits_value(text) >= 10,
    decreases text.len(),
{
    reveal_with_fuel(digits_value, 2);
    let front = text.drop_last();
    let last = text.last();
    assert('0' <= last <= '9');
    if text.len() == 1 {
        assert(front =~= Seq::empty());
        assert(decimal(digits_value(text)) =~= text);
    } else {
        assert forall|i: int| 0 <= i < front.len() implies '0' <= #[trigger] front[i] <= '9' by {
            assert(front[i] == text[i]);
        }
        assert(front[0] == text[0]);
        lemma_decimal_is_the_only_text(front);
        if text.len() == 2 {
            assert(front.drop_last() =~= Seq::empty());
        }
        assert(digits_value(text) / 10 == digits_value(front));
        assert(decimal(digits_value(text)) =~= text);
    }
}

/// The text of the error that std's `from_utf8` gives for bytes that are not
/// UTF-8.
pub uninterp spec fn utf8_error_text(bytes: Seq<u8>) -> Seq<char>;

/// Calls `std::str::from_utf8`: it accepts exactly the bytes that are UTF-8 and
/// gives back the characters that they encode. For other bytes the text of its
/// error depends on the bytes alone.
#[verifier::external_body]
pub(crate) fn text_from_utf8(bytes: &[u8]) -> (result: Result<String, String>)
    ensures
        match result {
            Ok(text) => valid_utf8(bytes@) && text@ == decode_utf8(bytes@),
            Err(error) => !valid_utf8(bytes@) && error@ == utf8_error_text(bytes@),
        },
{
    match std::str::from_utf8(bytes) {
        Ok(text) => Ok(text.to_string()),
        Err(error) => Err(error.to_string()),
    }
}

} // verus!
