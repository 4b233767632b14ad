//! Decimal text of integers, as the `itoa` crate writes it.

use vstd::prelude::*;
use vstd::utf8::{encode_utf8, is_ascii_chars, is_ascii_chars_encode_utf8};

verus! {

/// The character of a decimal digit `d` (`0 <= d < 10`).
pub open spec fn digit_char(d: int) -> char {
    (48 + d) as char
}

/// The decimal digits of `n`, most significant first, without leading zeros
/// (zero is the single digit `0`).
pub open spec fn unsigned_decimal(n: nat) -> Seq<char>
    decreases n,
{
    if n < 10 {
        seq![digit_char(n as int)]
    } else {
        unsigned_decimal(n / 10).push(digit_char((n % 10) as int))
    }
}

/// The decimal text of `v`: a minus sign before the digits of `-v` when `v` is
/// negative, the digits of `v` otherwise.
pub open spec fn decimal_text(v: int) -> Seq<char> {
    if v < 0 {
        seq!['-'] + unsigned_decimal((-v) as nat)
    } else {
        unsigned_decimal(v as nat)
    }
}

/// Whether a byte is an ASCII decimal digit.
pub open spec fn is_digit_byte(b: u8) -> bool {
    48 <= b <= 57
}

/// The number that a run of ASCII decimal digits denotes, read left to right.
pub open spec fn digits_value(bytes: Seq<u8>) -> int
    decreases bytes.len(),
{
    if bytes.len() == 0 {
        0
    } else {
        10 * digits_value(bytes.drop_last()) + (bytes.last() - 48)
    }
}

/// The number that decimal text denotes: an optional leading `-`, then digits.
pub open spec fn read_decimal(bytes: Seq<u8>) -> int {
    if bytes.len() > 0 && bytes[0] == 45 {
        -digits_value(bytes.drop_first())
    } else {
        digits_value(bytes)
    }
}

/// The UTF-8 bytes of an ASCII text are its characters, one byte each.
proof fn lemma_ascii_bytes(chars: Seq<char>)
    requires
        is_ascii_chars(chars),
    ensures
        encode_utf8(chars) == chars.map_values(|c: char| c as u8),
{
    is_ascii_chars_encode_utf8(chars);
    assert(encode_utf8(chars) =~= chars.map_values(|c: char| c as u8));
}

/// The digits of `n` are ASCII digits, and read back as `n`.
proof fn lemma_unsigned_decimal(n: nat)
    ensures
        forall|i: int| 0 <= i < unsigned_decimal(n).len() ==> '0' <= #[trigger] unsigned_decimal(n)[i] <= '9',
        unsigned_decimal(n).len() >= 1,
        digits_value(unsigned_decimal(n).map_values(|c: char| c as u8)) == n,
    decreases n,
{
    let s = unsigned_decimal(n);
    let bytes = s.map_values(|c: char| c as u8);
    if n < 10 {
        assert(bytes.drop_last() =~= Seq::<u8>::empty());
        assert(bytes.last() == 48 + n);
        assert(digits_value(bytes.drop_last()) == 0);
    } else {
        assert(bytes.last() == 48 + n % 10);
        assert(10 * (n / 10) + n % 10 == n) by (nonlinear_arith);
        lemma_unsigned_decimal(n / 10);
        let prefix = unsigned_decimal(n / 10);
        assert(bytes.drop_last() =~= prefix.map_values(|c: char| c as u8));
        assert(forall|i: int| 0 <= i < s.len() ==> '0' <= #[trigger] s[i] <= '9') by {
            assert forall|i: int| 0 <= i < s.len() implies '0' <= #[trigger] s[i] <= '9' by {
                if i < prefix.len() {
                    assert(s[i] == prefix[i]);
                }
            }
        }
    }
}

/// Law: every byte of the decimal text of a number is an ASCII digit, but
/// for the `-` that begins the text of a negative number. So a number never
/// holds a line feed, a quote or a brace of the line around it.
pub proof fn law_decimal_bytes(v: int)
    ensures
        forall|i: int|
            0 <= i < encode_utf8(decimal_text(v)).len() ==> is_digit_byte(#[trigger] encode_utf8(decimal_text(v))[i])
                || (i == 0 && v < 0 && encode_utf8(decimal_text(v))[i] == 45),
        encode_utf8(decimal_text(v)).len() >= 1,
{
    let n: nat = if v < 0 { (-v) as nat } else { v as nat };
    lemma_unsigned_decimal(n);
    let t = decimal_text(v);
    let digits = unsigned_decimal(n);
    assert(is_ascii_chars(t)) by {
        assert forall|i: int| 0 <= i < t.len() implies '\0' <= #[trigger] t[i] <= '\u{7f}' by {
            if v < 0 {
                if i > 0 {
                    assert(t[i] == digits[i - 1]);
                }
            }
        }
    }
    lemma_ascii_bytes(t);
    assert forall|i: int| 0 <= i < encode_utf8(t).len() implies is_digit_byte(#[trigger] encode_utf8(t)[i])
        || (i == 0 && v < 0 && encode_utf8(t)[i] == 45) by {
        if v < 0 {
            if i > 0 {
                assert(t[i] == digits[i - 1]);
            }
        } else {
            assert(t[i] == digits[i]);
        }
    }
}

/// Law: the decimal text of a number reads back as that number.
pub proof fn law_decimal_reads_back(v: int)
    ensures
        read_decimal(encode_utf8(decimal_text(v))) == v,
{
    let n: nat = if v < 0 { (-v) as nat } else { v as nat };
    lemma_unsigned_decimal(n);
    law_decimal_bytes(v);
    let t = decimal_text(v);
    let digits = unsigned_decimal(n);
    assert(is_ascii_chars(t)) by {
        assert forall|i: int| 0 <= i < t.len() implies '\0' <= #[trigger] t[i] <= '\u{7f}' by {
            if v < 0 {
                if i > 0 {
                    assert(t[i] == digits[i - 1]);
                }
            }
        }
    }
    lemma_ascii_bytes(t);
    let bytes = encode_utf8(t);
    let digit_bytes = digits.map_values(|c: char| c as u8);
    if v < 0 {
        assert(bytes.drop_first() =~= digit_bytes);
        assert(bytes[0] == 45);
    } else {
        assert(bytes =~= digit_bytes);
        assert(digits[0] != '-');
    }
}

/// Trusted: `itoa::Buffer::format` writes an integer as its decimal text, the
/// same text as the integer's `Display` impl: an optional `-`, then the digits
/// without leading zeros.
#[verifier::external_body]
pub fn format_decimal(v: i128) -> (text: String)
    ensures
        text@ == decimal_text(v as int),
{
    itoa::Buffer::new().format(v).to_string()
}

} // verus!
