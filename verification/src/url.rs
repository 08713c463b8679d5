//! Texts in URLs.
use vstd::prelude::*;
use vstd::string::*;
use vstd::utf8::*;

use crate::text;

verus! {

/// Whether a byte stands for itself in a URL: letters, digits and `-`, `.`, `_`, `~`.
pub open spec fn is_unreserved(b: u8) -> bool {
    48 <= b <= 57 || 65 <= b <= 90 || 97 <= b <= 122 || b == 45 || b == 46 || b == 95 || b == 126
}

/// The hexadecimal digit of `d`, in upper case.
pub open spec fn upper_hex(d: u8) -> u8 {
    if d < 10 {
        (48 + d) as u8
    } else {
        (55 + d) as u8
    }
}

/// Bytes with each that does not stand for itself written as `%` and two digits.
pub open spec fn escaped(bytes: Seq<u8>) -> Seq<u8>
    decreases bytes.len(),
{
    if bytes.len() == 0 {
        bytes
    } else if is_unreserved(bytes[0]) {
        seq![bytes[0]] + escaped(bytes.skip(1))
    } else {
        seq![37u8, upper_hex(bytes[0] / 16), upper_hex(bytes[0] % 16)] + escaped(bytes.skip(1))
    }
}

/// The value of a hexadecimal digit in either case.
pub open spec fn hex_digit_value(b: u8) -> Option<int> {
    if 48 <= b <= 57 {
        Some(b - 48)
    } else if 65 <= b <= 70 {
        Some(b - 55)
    } else if 97 <= b <= 102 {
        Some(b - 87)
    } else {
        None
    }
}

/// Bytes with each `%` and two digits read as one byte; a `%` before anything else stands for
/// itself.
pub open spec fn unescaped(bytes: Seq<u8>) -> Seq<u8>
    decreases bytes.len(),
{
    if bytes.len() == 0 {
        bytes
    } else if bytes[0] == 37 && bytes.len() >= 3 && hex_digit_value(bytes[1]) is Some
        && hex_digit_value(bytes[2]) is Some {
        seq![
            (hex_digit_value(bytes[1])->Some_0 * 16 + hex_digit_value(bytes[2])->Some_0) as u8,
        ] + unescaped(bytes.skip(3))
    } else {
        seq![bytes[0]] + unescaped(bytes.skip(1))
    }
}

/// A text as it stands in a URL.
pub open spec fn percent_encoded(s: Seq<char>) -> Seq<char> {
    decode_utf8(escaped(encode_utf8(s)))
}

/// The text that stands in a URL, or why it is none.
pub open spec fn percent_decoded(s: Seq<char>) -> Result<Seq<char>, Seq<char>> {
    let bytes = unescaped(encode_utf8(s));
    if valid_utf8(bytes) {
        Ok(decode_utf8(bytes))
    } else {
        Err(text::utf8_fault(bytes))
    }
}

/// `urlencoding::encode`: escapes each byte of the UTF-8 form that does not stand for itself.
#[verifier::external_body]
pub(crate) fn percent_encode(s: &str) -> (r: String)
    ensures
        r@ == percent_encoded(s@),
{
    urlencoding::encode(s).into_owned()
}

/// `urlencoding::decode`, with the error given as its text: reads the escaped bytes, and hands
/// them to `String::from_utf8`.
#[verifier::external_body]
pub(crate) fn percent_decode(s: &str) -> (r: Result<String, String>)
    ensures
        text::result_view(r) == percent_decoded(s@),
{
    match urlencoding::decode(s) {
        Ok(t) => Ok(t.into_owned()),
        Err(e) => Err(e.to_string()),
    }
}

proof fn lemma_escaped_is_ascii(bytes: Seq<u8>)
    ensures
        forall|i: int| 0 <= i < escaped(bytes).len() ==> #[trigger] escaped(bytes)[i] < 128,
    decreases bytes.len(),
{
    if bytes.len() > 0 {
        let tail = escaped(bytes.skip(1));
        lemma_escaped_is_ascii(bytes.skip(1));
        assert forall|i: int| 0 <= i < escaped(bytes).len() implies #[trigger] escaped(bytes)[i]
            < 128 by {
            let head = escaped(bytes).len() - tail.len();
            if i >= head {
                assert(escaped(bytes)[i] == tail[i - head]);
            }
        }
    }
}

proof fn lemma_ascii_is_valid(bytes: Seq<u8>)
    requires
        forall|i: int| 0 <= i < bytes.len() ==> #[trigger] bytes[i] < 128,
    ensures
        valid_utf8(bytes),
    decreases bytes.len(),
{
    if bytes.len() > 0 {
        let b = bytes[0];
        assert(b < 128);
        utf8_byte_ranges_bitwise(b);
        assert(is_leading_byte_width_1(b));
        assert(valid_first_scalar(bytes));
        assert(pop_first_scalar(bytes) =~= bytes.skip(1));
        lemma_ascii_is_valid(bytes.skip(1));
    }
}

/// Bytes that were escaped are read back.
pub proof fn escaped_bytes_are_read_back(bytes: Seq<u8>)
    ensures
        unescaped(escaped(bytes)) == bytes,
    decreases bytes.len(),
{
    if bytes.len() > 0 {
        let b = bytes[0];
        let tail = escaped(bytes.skip(1));
        escaped_bytes_are_read_back(bytes.skip(1));
        if is_unreserved(b) {
            assert(escaped(bytes).skip(1) =~= tail);
        } else {
            let e = escaped(bytes);
            assert(e.skip(3) =~= tail);
            assert(hex_digit_value(e[1]) == Some((b / 16) as int));
            assert(hex_digit_value(e[2]) == Some((b % 16) as int));
            assert((b / 16) * 16 + b % 16 == b);
        }
        assert(unescaped(escaped(bytes)) =~= bytes);
    }
}

/// A text that was put into a URL is read back from it.
pub proof fn encoded_texts_are_read_back(s: Seq<char>)
    ensures
        percent_decoded(percent_encoded(s)) == Ok::<Seq<char>, Seq<char>>(s),
{
    let bytes = encode_utf8(s);
    lemma_escaped_is_ascii(bytes);
    lemma_ascii_is_valid(escaped(bytes));
    decode_utf8_encode_utf8(escaped(bytes));
    escaped_bytes_are_read_back(bytes);
    encode_utf8_valid_utf8(s);
    encode_utf8_decode_utf8(s);
}

/// Whether a byte can stand in an escaped text.
spec fn is_escaped_byte(b: u8) -> bool {
    is_unreserved(b) || b == 37
}

proof fn lemma_escaped_bytes(bytes: Seq<u8>, i: int)
    requires
        0 <= i < escaped(bytes).len(),
    ensures
        is_escaped_byte(escaped(bytes)[i]),
    decreases bytes.len(),
{
    let tail = escaped(bytes.skip(1));
    let head = escaped(bytes).len() - tail.len();
    if i >= head {
        lemma_escaped_bytes(bytes.skip(1), i - head);
        assert(escaped(bytes)[i] == tail[i - head]);
    }
}

/// A text that was put into a URL holds none of the characters that separate parts of it.
pub proof fn encoded_texts_hold_no_separators(s: Seq<char>)
    ensures
        !percent_encoded(s).contains('?'),
        !percent_encoded(s).contains('&'),
        !percent_encoded(s).contains('='),
{
    let bytes = escaped(encode_utf8(s));
    lemma_escaped_is_ascii(encode_utf8(s));
    let chars = Seq::new(bytes.len(), |i: int| bytes[i] as char);
    assert(is_ascii_chars(chars));
    is_ascii_chars_encode_utf8(chars);
    assert(encode_utf8(chars) =~= bytes);
    encode_utf8_decode_utf8(chars);
    assert(percent_encoded(s) == chars);
    assert forall|i: int| 0 <= i < chars.len() implies chars[i] != '?' && chars[i] != '&'
        && chars[i] != '=' by {
        lemma_escaped_bytes(encode_utf8(s), i);
    }
}

} // verus!
