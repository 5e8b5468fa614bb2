//! Text that devices and the system report.

use vstd::prelude::*;
use vstd::string::StrSliceExecFns;

verus! {

/// The text that `String::from_utf8_lossy` makes of some bytes.
pub uninterp spec fn utf8_lossy_text(bytes: Seq<u8>) -> Seq<char>;

/// Calls `String::from_utf8_lossy`. The result depends on the bytes alone. Bytes that are valid
/// UTF-8 give the text that they encode.
#[verifier::external_body]
pub(crate) fn lossy_utf8(bytes: &[u8]) -> (text: String)
    ensures
        text@ == utf8_lossy_text(bytes@),
        vstd::utf8::valid_utf8(bytes@) ==> text@ == vstd::utf8::decode_utf8(bytes@),
{
    String::from_utf8_lossy(bytes).into_owned()
}

/// The longest front part of a text that does not end in a zero character.
pub open spec fn without_trailing_nul(text: Seq<char>) -> Seq<char>
    decreases text.len(),
{
    if text.len() > 0 && text.last() == '\0' {
        without_trailing_nul(text.drop_last())
    } else {
        text
    }
}

/// Takes the zero characters off the end of a text.
pub fn trim_end_nul(text: &str) -> (trimmed: String)
    ensures
        trimmed@ == without_trailing_nul(text@),
{
    let mut len = text.unicode_len();
    assert(text@.take(len as int) =~= text@);
    while len > 0 && text.get_char(len - 1) == '\0'
        invariant
            len <= text@.len(),
            without_trailing_nul(text@) == without_trailing_nul(text@.take(len as int)),
        decreases len,
    {
        assert(text@.take(len as int).drop_last() =~= text@.take(len - 1));
        len = len - 1;
    }
    let trimmed = text.substring_char(0, len);
    assert(trimmed@ =~= text@.take(len as int));
    trimmed.to_owned()
}

/// White space, as Unicode has it.
pub open spec fn is_white_space(c: char) -> bool {
    let code = c as u32;
    ||| 0x09 <= code <= 0x0d
    ||| code == 0x20
    ||| code == 0x85
    ||| code == 0xa0
    ||| code == 0x1680
    ||| 0x2000 <= code <= 0x200a
    ||| code == 0x2028
    ||| code == 0x2029
    ||| code == 0x202f
    ||| code == 0x205f
    ||| code == 0x3000
}

fn white_space(c: char) -> (is: bool)
    ensures
        is == is_white_space(c),
{
    let code: u32 = c as u32;
    (0x09 <= code && code <= 0x0d) || code == 0x20 || code == 0x85 || code == 0xa0 || code == 0x1680
        || (0x2000 <= code && code <= 0x200a) || code == 0x2028 || code == 0x2029 || code == 0x202f
        || code == 0x205f || code == 0x3000
}

/// A text without the white space at its two ends.
pub open spec fn trimmed(text: Seq<char>) -> Seq<char>
    decreases text.len(),
{
    if text.len() > 0 && is_white_space(text[0]) {
        trimmed(text.skip(1))
    } else if text.len() > 0 && is_white_space(text.last()) {
        trimmed(text.drop_last())
    } else {
        text
    }
}

/// Takes the white space off the two ends of a text.
pub fn trim(text: &str) -> (inner: String)
    ensures
        inner@ == trimmed(text@),
{
    let len = text.unicode_len();
    let mut from: usize = 0;
    assert(text@.subrange(0, len as int) =~= text@);
    while from < len && white_space(text.get_char(from))
        invariant
            from <= len == text@.len(),
            trimmed(text@) == trimmed(text@.subrange(from as int, len as int)),
        ensures
            from <= len == text@.len(),
            from < len ==> !is_white_space(text@[from as int]),
            trimmed(text@) == trimmed(text@.subrange(from as int, len as int)),
        decreases len - from,
    {
        assert(text@.subrange(from as int, len as int).skip(1) =~= text@.subrange(
            from + 1,
            len as int,
        ));
        from = from + 1;
    }
    let mut to = len;
    while from < to && white_space(text.get_char(to - 1))
        invariant
            from <= to <= len == text@.len(),
            from < len ==> !is_white_space(text@[from as int]),
            trimmed(text@) == trimmed(text@.subrange(from as int, to as int)),
        ensures
            from <= to <= len == text@.len(),
            trimmed(text@) == text@.subrange(from as int, to as int),
        decreases to - from,
    {
        assert(text@.subrange(from as int, to as int).drop_last() =~= text@.subrange(
            from as int,
            to - 1,
        ));
        to = to - 1;
    }
    text.substring_char(from, to).to_owned()
}

/// A decimal digit.
pub open spec fn is_digit(c: char) -> bool {
    '0' <= c <= '9'
}

/// The number that decimal digits stand for.
pub open spec fn decimal_value(digits: Seq<char>) -> int
    decreases digits.len(),
{
    if digits.len() == 0 {
        0
    } else {
        10 * decimal_value(digits.drop_last()) + (digits.last() as int - '0' as int)
    }
}

/// The digits of a number that may have a plus sign.
pub open spec fn digits_of(text: Seq<char>) -> Seq<char> {
    if text.len() > 0 && text[0] == '+' {
        text.skip(1)
    } else {
        text
    }
}

/// The byte that a text stands for: decimal digits, behind a plus sign or without one, whose number
/// fits.
pub open spec fn byte_of(text: Seq<char>) -> Option<u8> {
    let digits = digits_of(text);
    if digits.len() > 0 && (forall|i: int| 0 <= i < digits.len() ==> is_digit(#[trigger] digits[i]))
        && decimal_value(digits) <= 255 {
        Some(decimal_value(digits) as u8)
    } else {
        None
    }
}

/// Reads a byte that is written in decimal.
pub fn parse_byte(text: &str) -> (byte: Option<u8>)
    ensures
        byte == byte_of(text@),
{
    let len = text.unicode_len();
    let mut at: usize = 0;
    if len > 0 && text.get_char(0) == '+' {
        at = 1;
    }
    let ghost digits = digits_of(text@);
    let ghost first = at as int;
    assert(digits =~= text@.skip(first));
    if at == len {
        return None;
    }
    let mut value: u32 = 0;
    while at < len
        invariant
            0 <= first <= at <= len == text@.len(),
            digits == text@.skip(first),
            digits == digits_of(text@),
            forall|i: int| 0 <= i < at - first ==> is_digit(#[trigger] digits[i]),
            value <= 256,
            value <= 255 ==> decimal_value(digits.take(at - first)) == value,
            value == 256 ==> decimal_value(digits.take(at - first)) > 255,
        decreases len - at,
    {
        let c = text.get_char(at);
        assert(c == digits[at - first]);
        if !('0' <= c && c <= '9') {
            return None;
        }
        assert(digits.take(at + 1 - first).drop_last() =~= digits.take(at - first));
        let digit: u32 = c as u32 - '0' as u32;
        value = if 10 * value + digit > 255 {
            256
        } else {
            10 * value + digit
        };
        at = at + 1;
    }
    assert(digits.take(at - first) =~= digits);
    if value > 255 {
        None
    } else {
        Some(value as u8)
    }
}

/// Taking zero characters off the end takes nothing else: what is left is the front of the text, does
/// not end in a zero character, and behind it stand zero characters alone.
pub proof fn only_zeros_are_taken_off(text: Seq<char>)
    ensures
        ({
            let left = without_trailing_nul(text);
            &&& left.len() <= text.len()
            &&& left == text.take(left.len() as int)
            &&& left.len() > 0 ==> left.last() != '\0'
            &&& forall|i: int| left.len() <= i < text.len() ==> #[trigger] text[i] == '\0'
        }),
    decreases text.len(),
{
    let left = without_trailing_nul(text);
    if text.len() > 0 && text.last() == '\0' {
        let front = text.drop_last();
        only_zeros_are_taken_off(front);
        assert(left =~= text.take(left.len() as int));
        assert forall|i: int| left.len() <= i < text.len() implies #[trigger] text[i] == '\0' by {
            if i < front.len() {
                assert(front[i] == '\0');
            }
        }
    } else {
        assert(left =~= text.take(left.len() as int));
    }
}

/// Trimming takes white space off the two ends and nothing else: what is left is a part of the text with
/// no white space at its ends, and before and behind it stands white space alone.
pub proof fn only_white_space_is_taken_off(text: Seq<char>) -> (from: int)
    ensures
        ({
            let inner = trimmed(text);
            &&& 0 <= from && from + inner.len() <= text.len()
            &&& inner == text.subrange(from, from + inner.len())
            &&& inner.len() > 0 ==> !is_white_space(inner[0]) && !is_white_space(inner.last())
            &&& forall|i: int|
                0 <= i < from || from + inner.len() <= i < text.len() ==> is_white_space(
                    #[trigger] text[i],
                )
        }),
    decreases text.len(),
{
    let inner = trimmed(text);
    if text.len() > 0 && is_white_space(text[0]) {
        let rest = text.skip(1);
        let from = only_white_space_is_taken_off(rest) + 1;
        assert(inner =~= text.subrange(from, from + inner.len()));
        assert forall|i: int|
            0 <= i < from || from + inner.len() <= i < text.len() implies is_white_space(
            #[trigger] text[i],
        ) by {
            if i > 0 {
                assert(text[i] == rest[i - 1]);
            }
        }
        from
    } else if text.len() > 0 && is_white_space(text.last()) {
        let front = text.drop_last();
        let from = only_white_space_is_taken_off(front);
        assert(inner =~= text.subrange(from, from + inner.len()));
        assert forall|i: int|
            0 <= i < from || from + inner.len() <= i < text.len() implies is_white_space(
            #[trigger] text[i],
        ) by {
            if i < front.len() {
                assert(text[i] == front[i]);
            }
        }
        from
    } else {
        assert(inner =~= text.subrange(0, inner.len() as int));
        0
    }
}

/// White space is what Unicode counts as such: the blank, the control characters from tab to carriage
/// return, and 19 others.
pub proof fn white_space_is_that_of_unicode(c: char)
    ensures
        is_white_space(c) <==> (c as u32 == 32 || 9 <= c as u32 <= 13 || c as u32 == 133 || c as u32
            == 160 || c as u32 == 5760 || 8192 <= c as u32 <= 8202 || c as u32 == 8232 || c as u32
            == 8233 || c as u32 == 8239 || c as u32 == 8287 || c as u32 == 12288),
{
}

/// One more digit makes the number ten times as large, and adds the digit.
pub proof fn each_digit_counts_ten_times(digits: Seq<char>, next: char)
    ensures
        decimal_value(digits.push(next)) == 10 * decimal_value(digits) + (next as int - 48),
        decimal_value(Seq::empty()) == 0,
{
    assert(digits.push(next).drop_last() =~= digits);
}

/// A byte is read exactly from the decimal numbers up to 255, with a plus sign or without.
pub proof fn bytes_are_read_from_decimal_numbers(text: Seq<char>, digits: Seq<char>)
    requires
        text == digits && (digits.len() == 0 || digits[0] != '+') || text == seq!['+'] + digits,
    ensures
        byte_of(text) is Some <==> {
            &&& digits.len() > 0
            &&& forall|i: int| 0 <= i < digits.len() ==> 48 <= (#[trigger] digits[i]) as int <= 57
            &&& decimal_value(digits) < 256
        },
        byte_of(text) matches Some(byte) ==> byte == decimal_value(digits),
{
    assert(digits =~= digits_of(text)) by {
        if text == seq!['+'] + digits {
            assert(text[0] == '+');
        }
    }
    assert('0' as int == 48 && '9' as int == 57);
    if forall|i: int| 0 <= i < digits.len() ==> 48 <= (#[trigger] digits[i]) as int <= 57 {
        assert forall|i: int| 0 <= i < digits.len() implies is_digit(#[trigger] digits[i]) by {}
        decimal_value_is_not_negative(digits);
    }
    if forall|i: int| 0 <= i < digits.len() ==> is_digit(#[trigger] digits[i]) {
        assert forall|i: int| 0 <= i < digits.len() implies 48 <= (#[trigger] digits[i]) as int
            <= 57 by {
            assert(is_digit(digits[i]));
        }
    }
}

proof fn decimal_value_is_not_negative(digits: Seq<char>)
    requires
        forall|i: int| 0 <= i < digits.len() ==> is_digit(#[trigger] digits[i]),
    ensures
        0 <= decimal_value(digits),
    decreases digits.len(),
{
    if digits.len() > 0 {
        let front = digits.drop_last();
        assert forall|i: int| 0 <= i < front.len() implies is_digit(#[trigger] front[i]) by {
            assert(is_digit(digits[i]));
        }
        assert(is_digit(digits[digits.len() - 1]));
        decimal_value_is_not_negative(front);
    }
}

} // verus!
