//! Laws of hexadecimal, Base64, UUIDs, URLs and parsed values.
use vstd::prelude::*;
use vstd::string::*;
use vstd::utf8::*;

use crate::crypto;
use crate::primitives;
use crate::storage;
use crate::text;
use crate::tree;
use crate::tree::{Shape, Tree};
use crate::url;

verus! {

// ---------------------------------------------------------------------------
// Hexadecimal, Base64, UUIDs
// ---------------------------------------------------------------------------
/// Hexadecimal writes each byte as two digits, the high half first, in lower case; it is read in
/// either case.
pub proof fn bytes_are_two_hexadecimal_digits(bytes: Seq<u8>, i: int, value: u8)
    requires
        value < 16,
    ensures
        primitives::hex_encoded(bytes).len() == 2 * bytes.len(),
        0 <= i < bytes.len() ==> primitives::hex_encoded(bytes)[2 * i] == primitives::hex_digit(
            (bytes[i] / 16) as u8,
        ) && primitives::hex_encoded(bytes)[2 * i + 1] == primitives::hex_digit(
            (bytes[i] % 16) as u8,
        ),
        value < 10 ==> primitives::hex_digit(value) as int == '0' as int + value,
        value >= 10 ==> primitives::hex_digit(value) as int == 'a' as int + value - 10,
        primitives::hex_value(primitives::hex_digit(value)) == Some(value),
        value >= 10 ==> primitives::hex_value(('A' as int + value - 10) as char) == Some(value),
        primitives::hex_value('g') is None,
        primitives::hex_value('G') is None,
        primitives::hex_value('/') is None,
        primitives::hex_value(':') is None,
{
    if 0 <= i < bytes.len() {
        assert(2 * i / 2 == i && 2 * i % 2 == 0);
        assert((2 * i + 1) / 2 == i && (2 * i + 1) % 2 == 1);
    }
}

/// A text is hexadecimal exactly where it has an even number of characters and all are digits; it
/// then writes one byte for each two.
pub proof fn hexadecimal_texts_are_read(s: Seq<char>, i: int)
    ensures
        primitives::is_hex(s) <==> (s.len() % 2 == 0 && forall|k: int|
            0 <= k < s.len() ==> primitives::hex_value(#[trigger] s[k]) is Some),
        primitives::hex_decoded(s).len() == s.len() / 2,
        primitives::is_hex(s) && 0 <= i < s.len() / 2 ==> primitives::hex_decoded(s)[i]
            == primitives::hex_value(s[2 * i])->0 * 16 + primitives::hex_value(s[2 * i + 1])->0,
{
    if primitives::is_hex(s) {
        assert forall|k: int| 0 <= k < s.len() implies primitives::hex_value(
            #[trigger] s[k],
        ) is Some by {
            assert(primitives::hex_value(s[k]) is Some);
        }
        if 0 <= i < s.len() / 2 {
            assert(primitives::hex_value(s[2 * i]) is Some);
            assert(primitives::hex_value(s[2 * i + 1]) is Some);
        }
    }
}

/// The alphabet of Base64: capital letters, small letters, digits, and two more characters, which
/// differ in a URL.
pub proof fn base64_has_its_alphabet(value: int)
    requires
        0 <= value < 64,
    ensures
        value < 26 ==> primitives::base64_char(value, false) as int == 'A' as int + value
            && primitives::base64_char(value, true) as int == 'A' as int + value,
        26 <= value < 52 ==> primitives::base64_char(value, false) as int == 'a' as int + value - 26
            && primitives::base64_char(value, true) as int == 'a' as int + value - 26,
        52 <= value < 62 ==> primitives::base64_char(value, false) as int == '0' as int + value - 52
            && primitives::base64_char(value, true) as int == '0' as int + value - 52,
        primitives::base64_char(62, false) == '+',
        primitives::base64_char(63, false) == '/',
        primitives::base64_char(62, true) == '-',
        primitives::base64_char(63, true) == '_',
{
}

/// In a URL what is left over is not padded.
pub proof fn base64_is_not_padded_in_urls(a: u8, b: u8)
    ensures
        primitives::base64_text(seq![a], true) == seq![
            primitives::base64_char(a as int / 4, true),
            primitives::base64_char(a as int % 4 * 16, true),
        ],
        primitives::base64_text(seq![a, b], true) == seq![
            primitives::base64_char(a as int / 4, true),
            primitives::base64_char(a as int % 4 * 16 + b as int / 16, true),
            primitives::base64_char(b as int % 16 * 4, true),
        ],
{
    assert(primitives::base64_text(seq![a], true) =~= seq![
        primitives::base64_char(a as int / 4, true),
        primitives::base64_char(a as int % 4 * 16, true),
    ]);
    assert(primitives::base64_text(seq![a, b], true) =~= seq![
        primitives::base64_char(a as int / 4, true),
        primitives::base64_char(a as int % 4 * 16 + b as int / 16, true),
        primitives::base64_char(b as int % 16 * 4, true),
    ]);
}

/// A UUID is written in five groups of four, two, two, two and six bytes.
pub proof fn uuids_have_five_groups(a: Seq<u8>, b: Seq<u8>, c: Seq<u8>, d: Seq<u8>, e: Seq<u8>)
    requires
        a.len() == 4,
        b.len() == 2,
        c.len() == 2,
        d.len() == 2,
        e.len() == 6,
    ensures
        primitives::uuid_hyphenated(a + b + c + d + e) == primitives::hex_encoded(a) + "-"@
            + primitives::hex_encoded(b) + "-"@ + primitives::hex_encoded(c) + "-"@
            + primitives::hex_encoded(d) + "-"@ + primitives::hex_encoded(e),
{
    let bytes = a + b + c + d + e;
    assert(bytes.subrange(0, 4) =~= a);
    assert(bytes.subrange(4, 6) =~= b);
    assert(bytes.subrange(6, 8) =~= c);
    assert(bytes.subrange(8, 10) =~= d);
    assert(bytes.subrange(10, 16) =~= e);
}

// ---------------------------------------------------------------------------
// URLs
// ---------------------------------------------------------------------------
/// Letters, digits and four marks stand for themselves in a URL; every other byte is written as `%`
/// and two capital hexadecimal digits. Each byte is written for itself.
pub proof fn bytes_are_escaped_in_urls(b: u8, rest: Seq<u8>)
    ensures
        ({
            let plain = 'a' as int <= b <= 'z' as int || 'A' as int <= b <= 'Z' as int || '0' as int
                <= b <= '9' as int || b == '-' as int || b == '.' as int || b == '_' as int || b
                == '~' as int;
            &&& plain ==> url::escaped(seq![b] + rest) == seq![b] + url::escaped(rest)
            &&& !plain ==> url::escaped(seq![b] + rest) == seq![
                37u8,
                url::upper_hex((b / 16) as u8),
                url::upper_hex((b % 16) as u8),
            ] + url::escaped(rest)
        }),
        url::escaped(Seq::empty()).len() == 0,
        forall|d: u8| d < 10 ==> #[trigger] url::upper_hex(d) as int == '0' as int + d,
        forall|d: u8| 10 <= d < 16 ==> #[trigger] url::upper_hex(d) as int == 'A' as int + d - 10,
{
    assert((seq![b] + rest).skip(1) =~= rest);
}

/// In a URL `%` and two hexadecimal digits of either case are read as one byte; any other byte is
/// read as itself.
pub proof fn escapes_are_read_in_urls(high: u8, low: u8, b: u8, rest: Seq<u8>)
    ensures
        url::hex_digit_value(high) matches Some(h) ==> url::hex_digit_value(low) matches Some(l)
            ==> url::unescaped(seq![37u8, high, low] + rest) == seq![(h * 16 + l) as u8]
            + url::unescaped(rest),
        b != 37 ==> url::unescaped(seq![b] + rest) == seq![b] + url::unescaped(rest),
        url::hex_digit_value(high) is None ==> url::unescaped(seq![37u8, high, low] + rest) == seq![
            37u8,
        ] + url::unescaped(seq![high, low] + rest),
        url::unescaped(Seq::empty()).len() == 0,
        '0' as int <= b <= '9' as int ==> url::hex_digit_value(b) == Some(b - '0' as int),
        'A' as int <= b <= 'F' as int ==> url::hex_digit_value(b) == Some(b - 'A' as int + 10),
        'a' as int <= b <= 'f' as int ==> url::hex_digit_value(b) == Some(b - 'a' as int + 10),
        !('0' as int <= b <= '9' as int) && !('A' as int <= b <= 'F' as int) && !('a' as int <= b
            <= 'f' as int) ==> url::hex_digit_value(b) is None,
{
    let s = seq![37u8, high, low] + rest;
    assert(s[0] == 37 && s[1] == high && s[2] == low);
    assert(s.skip(3) =~= rest);
    assert(s.skip(1) =~= seq![high, low] + rest);
    assert((seq![b] + rest).skip(1) =~= rest);
}

/// A text in a URL is read where its bytes are UTF-8, and a fault otherwise.
pub proof fn texts_in_urls_have_to_be_utf8(s: Seq<char>)
    ensures
        ({
            let bytes = url::unescaped(encode_utf8(s));
            &&& valid_utf8(bytes) ==> url::percent_decoded(s) == Ok::<Seq<char>, Seq<char>>(
                decode_utf8(bytes),
            )
            &&& !valid_utf8(bytes) ==> url::percent_decoded(s) == Err::<Seq<char>, Seq<char>>(
                text::utf8_fault(bytes),
            )
        }),
{
}

// ---------------------------------------------------------------------------
// Values of parsed and optional things
// ---------------------------------------------------------------------------
/// The shape of a parsed value has its numbers, its texts, its lists and its pairs, in order.
pub proof fn shapes_are_those_of_the_values(
    n: Option<i64>,
    t: String,
    items: Vec<Tree>,
    pairs: Vec<(Tree, Tree)>,
    i: int,
)
    ensures
        tree::shape(Tree::Opaque) == Shape::Opaque,
        tree::shape(Tree::Number(n)) == Shape::Number(n),
        tree::shape(Tree::Text(Some(t))) == Shape::Text(Some(t@)),
        tree::shape(Tree::Text(None)) == Shape::Text(None),
        tree::shape(Tree::List(items)) matches Shape::List(list) && list.len() == items@.len() && (0
            <= i < items@.len() ==> list[i] == tree::shape(items@[i])),
        tree::shape(Tree::Pairs(pairs)) matches Shape::Pairs(list) && list.len() == pairs@.len() && (
        0 <= i < pairs@.len() ==> list[i] == (tree::shape(pairs@[i].0), tree::shape(pairs@[i].1))),
{
    reveal_with_fuel(tree::shape, 2);
}

/// The number or the text of a shape is what it is, and nothing else is one.
pub proof fn numbers_and_texts_are_told_apart(n: Option<i64>, t: Option<Seq<char>>, list: Seq<Shape>)
    ensures
        tree::number_of(Shape::Number(n)) == n,
        tree::number_of(Shape::Text(t)) is None,
        tree::number_of(Shape::List(list)) is None,
        tree::number_of(Shape::Opaque) is None,
        tree::text_of(Shape::Text(t)) == t,
        tree::text_of(Shape::Number(n)) is None,
        tree::text_of(Shape::List(list)) is None,
        tree::text_of(Shape::Opaque) is None,
{
}

/// The value of what may be missing is there where it is, and that of a result is its value or its
/// fault.
pub proof fn values_are_there_where_things_are(s: String, e: String, keys: storage::Keys)
    ensures
        text::option_view(Some(s)) == Some(s@),
        text::option_view(None) is None,
        text::result_view(Ok::<String, String>(s)) == Ok::<Seq<char>, Seq<char>>(s@),
        text::result_view(Err::<String, String>(e)) == Err::<Seq<char>, Seq<char>>(e@),
        storage::part_view(Some(s)) == Some(s@),
        storage::part_view(None::<String>) is None,
        storage::held_keys(Some(keys)) == Some((keys.0@, keys.1@)),
        storage::held_keys(None) is None,
        crypto::keys_view(keys) == (keys.0@, keys.1@),
        crypto::keys_result_view(Ok(keys)) == Ok::<(Seq<u8>, Seq<u8>), Seq<char>>(
            (keys.0@, keys.1@),
        ),
        crypto::keys_result_view(Err(e)) == Err::<(Seq<u8>, Seq<u8>), Seq<char>>(e@),
        storage::option_result_view(Ok(Some(s))) == Ok::<Option<Seq<char>>, Seq<char>>(Some(s@)),
        storage::option_result_view(Ok(None)) == Ok::<Option<Seq<char>>, Seq<char>>(None),
        storage::option_result_view(Err(e)) == Err::<Option<Seq<char>>, Seq<char>>(e@),
{
}

/// The values of a list are those of its items, in order.
pub proof fn lists_have_the_values_of_their_items(list: Vec<String>, i: int)
    ensures
        storage::seq_view(list@).len() == list@.len(),
        0 <= i < list@.len() ==> storage::seq_view(list@)[i] == list@[i]@,
        storage::list_view(Some(list)) == Some(storage::seq_view(list@)),
        storage::list_view(None::<Vec<String>>) is None,
{
}

} // verus!
