//! Reading a row identifier from the text of a query parameter.

use vstd::prelude::*;
use vstd::string::is_ascii_spec_bytes;
use vstd::string::StringSliceAdditionalSpecFns;
use vstd::utf8::is_ascii_chars;

verus! {

/// Whether a character is one of the ten decimal digits.
pub open spec fn is_digit(c: char) -> bool {
    '0' <= c <= '9'
}

/// Whether every character of a text is a decimal digit.
pub open spec fn all_digits(text: Seq<char>) -> bool {
    forall|i: int| 0 <= i < text.len() ==> is_digit(#[trigger] text[i])
}

/// The number that a run of decimal digits denotes, most significant digit first.
pub open spec fn digits_value(text: Seq<char>) -> int
    decreases text.len(),
{
    if text.len() == 0 {
        0
    } else {
        10 * digits_value(text.drop_last()) + (text.last() as int - '0' as int)
    }
}

/// The integer that a text denotes: an optional `+` or `-`, then one or more
/// decimal digits and nothing else. Any other text denotes no integer.
pub open spec fn signed_value(text: Seq<char>) -> Option<int> {
    let signed = text.len() > 0 && (text[0] == '-' || text[0] == '+');
    let digits = if signed {
        text.subrange(1, text.len() as int)
    } else {
        text
    };
    if digits.len() > 0 && all_digits(digits) {
        if text[0] == '-' {
            Some(-digits_value(digits))
        } else {
            Some(digits_value(digits))
        }
    } else {
        None
    }
}

/// The row identifier that a text denotes: the integer it denotes, when that
/// integer fits in 64 signed bits.
pub open spec fn rowid_value(text: Seq<char>) -> Option<i64> {
    match signed_value(text) {
        Some(value) => if i64::MIN <= value <= i64::MAX {
            Some(value as i64)
        } else {
            None
        },
        None => None,
    }
}

/// A text that denotes an integer holds ASCII characters only.
proof fn lemma_integer_text_is_ascii(text: Seq<char>)
    requires
        signed_value(text) is Some,
    ensures
        is_ascii_chars(text),
{
    let signed = text.len() > 0 && (text[0] == '-' || text[0] == '+');
    assert forall|i: int| 0 <= i < text.len() implies '\0' <= #[trigger] text[i] <= '\u{7f}' by {
        if signed {
            let digits = text.subrange(1, text.len() as int);
            if i > 0 {
                assert(is_digit(digits[i - 1]));
            }
        } else {
            assert(is_digit(text[i]));
        }
    }
}

/// Digits that are appended never lower the number denoted.
proof fn lemma_prefix_value_bounded(digits: Seq<char>, end: int)
    requires
        all_digits(digits),
        0 <= end <= digits.len(),
    ensures
        0 <= digits_value(digits.subrange(0, end)) <= digits_value(digits),
    decreases digits.len(),
{
    if end == digits.len() {
        assert(digits.subrange(0, end) =~= digits);
        if digits.len() > 0 {
            assert(is_digit(digits.last()));
            assert(all_digits(digits.drop_last()));
            lemma_prefix_value_bounded(digits.drop_last(), end - 1);
        }
    } else {
        assert(is_digit(digits.last()));
        assert(all_digits(digits.drop_last()));
        lemma_prefix_value_bounded(digits.drop_last(), end);
        lemma_prefix_value_bounded(digits.drop_last(), digits.len() - 1);
        assert(digits.drop_last().subrange(0, end) =~= digits.subrange(0, end));
        assert(digits.drop_last().subrange(0, digits.len() - 1) =~= digits.drop_last());
    }
}

/// Reads a row identifier from the text of a query parameter.
///
/// The text is an optional sign followed by decimal digits; white space,
/// separators and digits of other scripts are not accepted, and neither is a
/// number outside the range of `i64`.
pub fn parse_rowid(text: &str) -> (id: Option<i64>)
    ensures
        id == rowid_value(text@),
{
    if !text.is_ascii() {
        proof {
            if signed_value(text@) is Some {
                lemma_integer_text_is_ascii(text@);
            }
        }
        return None;
    }
    let bytes = text.as_bytes();
    proof {
        is_ascii_spec_bytes(text);
    }
    let length = bytes.len();
    if length == 0 {
        return None;
    }
    let negative = bytes[0] == 45u8;
    let start: usize = if bytes[0] == 45u8 || bytes[0] == 43u8 {
        1
    } else {
        0
    };
    assert(text@[0] as u8 == bytes@[0]);
    assert((text@[0] == '-') == negative);
    assert((text@[0] == '-' || text@[0] == '+') == (start == 1));
    let ghost digits = text@.subrange(start as int, length as int);
    assert(start == 0 ==> digits =~= text@);
    let mut magnitude: u64 = 0;
    let mut i: usize = start;
    while i < length
        invariant
            start <= i <= length,
            length == bytes@.len(),
            length == text@.len(),
            is_ascii_chars(text@),
            forall|k: int| 0 <= k < length ==> bytes@[k] == #[trigger] text@[k] as u8,
            digits == text@.subrange(start as int, length as int),
            all_digits(digits.subrange(0, i - start)),
            magnitude == digits_value(digits.subrange(0, i - start)),
            magnitude <= 0x8000_0000_0000_0000,
            length > 0,
            (text@[0] == '-' || text@[0] == '+') == (start == 1),
            start == 0 ==> digits == text@,
            start <= 1,
        decreases length - i,
    {
        let byte = bytes[i];
        assert(byte == text@[i as int] as u8);
        assert(digits[i - start] == text@[i as int]);
        if byte < 48u8 || byte > 57u8 {
            assert(!is_digit(digits[i - start]));
            assert(signed_value(text@) is None);
            return None;
        }
        assert(is_digit(digits[i - start]));
        let ghost longer = digits.subrange(0, i - start + 1);
        assert(longer.drop_last() =~= digits.subrange(0, i - start));
        assert(longer.last() == digits[i - start]);
        assert(all_digits(longer));
        let next: u128 = magnitude as u128 * 10 + (byte - 48u8) as u128;
        assert(next == digits_value(longer));
        if next > 0x8000_0000_0000_0000 {
            proof {
                if all_digits(digits) {
                    lemma_prefix_value_bounded(digits, i - start + 1);
                }
            }
            return None;
        }
        magnitude = next as u64;
        i = i + 1;
    }
    assert(digits.subrange(0, i - start) =~= digits);
    if start == length {
        return None;
    }
    if negative {
        Some((-(magnitude as i128)) as i64)
    } else if magnitude <= 0x7fff_ffff_ffff_ffff {
        Some(magnitude as i64)
    } else {
        None
    }
}

} // verus!
