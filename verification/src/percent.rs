//! Reading the percentage argument: an unsigned decimal number, or the
//! default where the text is not one.

use vstd::prelude::*;
use vstd::string::*;
use vstd::utf8::is_ascii_chars;

verus! {

/// The percentage used where the argument does not read as a number.
pub const DEFAULT_PERCENT: u64 = 5;

/// The byte that writes the plus sign.
const ASCII_PLUS: u8 = 43;

/// The byte that writes the digit zero.
const ASCII_ZERO: u8 = 48;

/// The byte that writes the digit nine.
const ASCII_NINE: u8 = 57;

/// Whether `c` is one of the ten decimal digits.
pub open spec fn is_digit(c: char) -> bool {
    '0' <= c <= '9'
}

/// The number that the digit `c` stands for.
pub open spec fn digit_of(c: char) -> nat {
    (c as nat - '0' as nat) as nat
}

/// Whether `text` holds decimal digits and nothing else.
pub open spec fn all_digits(text: Seq<char>) -> bool {
    forall|i: int| 0 <= i < text.len() ==> is_digit(#[trigger] text[i])
}

/// The number that a run of decimal digits writes, most significant digit
/// first. The empty run writes zero.
pub open spec fn digits_value(digits: Seq<char>) -> nat
    decreases digits.len(),
{
    if digits.len() == 0 {
        0
    } else {
        digits_value(digits.drop_last()) * 10 + digit_of(digits.last())
    }
}

/// `text` without the one plus sign that may lead it.
pub open spec fn unsigned_digits(text: Seq<char>) -> Seq<char> {
    if text.len() > 0 && text[0] == '+' {
        text.skip(1)
    } else {
        text
    }
}

/// The number that `text` writes: an optional plus sign, then at least one
/// decimal digit and nothing else, for a value that 64 bits can hold.
/// Anything else (the empty text, a lone sign, a minus sign, blanks, letters,
/// a number too large) writes no number.
pub open spec fn unsigned_value(text: Seq<char>) -> Option<u64> {
    let digits = unsigned_digits(text);
    if digits.len() > 0 && all_digits(digits) && digits_value(digits) <= u64::MAX {
        Some(digits_value(digits) as u64)
    } else {
        None
    }
}

/// The percentage that the argument `text` asks for.
pub open spec fn percent_of(text: Seq<char>) -> u64 {
    match unsigned_value(text) {
        Some(value) => value,
        None => DEFAULT_PERCENT,
    }
}

/// A run of digits writes at least what any of its prefixes writes.
pub proof fn lemma_prefix_value(digits: Seq<char>, len: int)
    requires
        0 <= len <= digits.len(),
    ensures
        digits_value(digits.take(len)) <= digits_value(digits),
    decreases digits.len(),
{
    if len == digits.len() {
        assert(digits.take(len) =~= digits);
    } else {
        lemma_prefix_value(digits.drop_last(), len);
        assert(digits.drop_last().take(len) =~= digits.take(len));
    }
}

/// One more digit multiplies the value by ten and adds the digit.
pub proof fn lemma_value_step(digits: Seq<char>, len: int)
    requires
        0 <= len < digits.len(),
    ensures
        digits_value(digits.take(len + 1)) == digits_value(digits.take(len)) * 10 + digit_of(
            digits[len],
        ),
{
    assert(digits.take(len + 1).drop_last() =~= digits.take(len));
}

/// A text with a character that is no digit, other than a plus sign in front,
/// writes no number, so the default percentage stands for it.
pub proof fn lemma_non_numeric_is_default(text: Seq<char>, at: int)
    requires
        0 <= at < text.len(),
        !is_digit(text[at]),
        at > 0 || text[0] != '+',
    ensures
        unsigned_value(text) is None,
        percent_of(text) == DEFAULT_PERCENT,
{
    let digits = unsigned_digits(text);
    if text[0] == '+' {
        assert(digits[at - 1] == text[at]);
    } else {
        assert(digits[at] == text[at]);
    }
}

/// Reads `text` as an unsigned decimal number.
pub fn parse_unsigned(text: &str) -> (value: Option<u64>)
    ensures
        value == unsigned_value(text@),
{
    if !text.is_ascii() {
        proof {
            let at = choose|i: int|
                0 <= i < text@.len() && !('\0' <= #[trigger] text@[i] && text@[i] <= '\u{7f}');
            lemma_non_numeric_is_default(text@, at);
        }
        return None;
    }
    let bytes = text.as_bytes();
    proof {
        is_ascii_spec_bytes(text);
    }
    let len = bytes.len();
    let start: usize = if len > 0 && bytes[0] == ASCII_PLUS {
        1
    } else {
        0
    };
    let ghost digits = unsigned_digits(text@);
    if start == len {
        return None;
    }
    let mut value: u64 = 0;
    let mut at: usize = start;
    assert(digits.take(0) =~= Seq::<char>::empty());
    while at < len
        invariant
            start <= at <= len,
            start <= 1,
            len == text@.len(),
            len == bytes@.len(),
            is_ascii_chars(text@),
            forall|i: int| 0 <= i < len ==> bytes@[i] == text@[i] as u8,
            digits == unsigned_digits(text@),
            digits.len() == len - start,
            forall|i: int| 0 <= i < digits.len() ==> digits[i] == text@[i + start],
            all_digits(digits.take(at - start)),
            value == digits_value(digits.take(at - start)),
        decreases len - at,
    {
        let byte = bytes[at];
        if byte < ASCII_ZERO || byte > ASCII_NINE {
            assert(!is_digit(digits[at - start]));
            return None;
        }
        let digit: u64 = (byte - ASCII_ZERO) as u64;
        proof {
            lemma_value_step(digits, at - start);
            lemma_prefix_value(digits, at - start + 1);
        }
        if value > (u64::MAX - digit) / 10 {
            return None;
        }
        value = value * 10 + digit;
        at += 1;
        assert(all_digits(digits.take(at - start))) by {
            assert forall|i: int| 0 <= i < at - start implies is_digit(
                #[trigger] digits.take(at - start)[i],
            ) by {
                if i < at - start - 1 {
                    assert(digits.take(at - start - 1)[i] == digits[i]);
                }
            }
        }
    }
    assert(digits.take(at - start) =~= digits);
    Some(value)
}

/// Reads the percentage argument: the number that `text` writes, or
/// [`DEFAULT_PERCENT`] where it writes none.
pub fn parse_percent(text: &str) -> (percent: u64)
    ensures
        percent == percent_of(text@),
        unsigned_value(text@) is None ==> percent == DEFAULT_PERCENT,
{
    match parse_unsigned(text) {
        Some(value) => value,
        None => DEFAULT_PERCENT,
    }
}

} // verus!
