//! Text operations, stated over the sequence of characters of a string.
use vstd::prelude::*;
use vstd::string::*;
use vstd::utf8::*;

verus! {

// ---------------------------------------------------------------------------
// What the operations compute
// ---------------------------------------------------------------------------
/// `pat` stands in `s` at position `i`.
pub open spec fn found_at(s: Seq<char>, pat: Seq<char>, i: int) -> bool {
    &&& 0 <= i
    &&& i + pat.len() <= s.len()
    &&& s.subrange(i, i + pat.len()) == pat
}

/// `pat` stands somewhere in `s`.
pub open spec fn has_text(s: Seq<char>, pat: Seq<char>) -> bool {
    exists|i: int| found_at(s, pat, i)
}

/// The parts of `s` between the occurrences of `sep`; one more than `s` has of them.
pub open spec fn split_on(s: Seq<char>, sep: char) -> Seq<Seq<char>>
    decreases s.len(),
{
    if s.len() == 0 {
        seq![Seq::empty()]
    } else {
        let before = split_on(s.drop_last(), sep);
        if s.last() == sep {
            before.push(Seq::empty())
        } else {
            before.update(before.len() - 1, before.last().push(s.last()))
        }
    }
}

/// The characters with the Unicode property `White_Space`.
pub open spec fn is_space(c: char) -> bool {
    ||| '\u{9}' <= c <= '\u{d}'
    ||| c == ' '
    ||| c == '\u{85}'
    ||| c == '\u{a0}'
    ||| c == '\u{1680}'
    ||| '\u{2000}' <= c <= '\u{200a}'
    ||| c == '\u{2028}'
    ||| c == '\u{2029}'
    ||| c == '\u{202f}'
    ||| c == '\u{205f}'
    ||| c == '\u{3000}'
}

/// `s` without the white space at its front.
pub open spec fn trimmed_front(s: Seq<char>) -> Seq<char>
    decreases s.len(),
{
    if s.len() > 0 && is_space(s[0]) {
        trimmed_front(s.drop_first())
    } else {
        s
    }
}

/// `s` without the white space at its end.
pub open spec fn trimmed_back(s: Seq<char>) -> Seq<char>
    decreases s.len(),
{
    if s.len() > 0 && is_space(s.last()) {
        trimmed_back(s.drop_last())
    } else {
        s
    }
}

/// `s` without the white space at either end.
pub open spec fn trimmed(s: Seq<char>) -> Seq<char> {
    trimmed_back(trimmed_front(s))
}

/// The characters of `s` before the first white space.
pub open spec fn until_space(s: Seq<char>) -> Seq<char>
    decreases s.len(),
{
    if s.len() == 0 || is_space(s[0]) {
        Seq::empty()
    } else {
        seq![s[0]] + until_space(s.drop_first())
    }
}

/// The first word of `s`, where it has one.
pub open spec fn first_word(s: Seq<char>) -> Option<Seq<char>> {
    let word = until_space(trimmed_front(s));
    if word.len() == 0 {
        None
    } else {
        Some(word)
    }
}

/// `s` without the run of `c` at its end.
pub open spec fn without_trailing(s: Seq<char>, c: char) -> Seq<char>
    decreases s.len(),
{
    if s.len() > 0 && s.last() == c {
        without_trailing(s.drop_last(), c)
    } else {
        s
    }
}

/// `s` with each occurrence of `from`, taken from the left, replaced by `to`.
pub open spec fn with_replaced(s: Seq<char>, from: Seq<char>, to: Seq<char>) -> Seq<char>
    recommends
        from.len() > 0,
    decreases s.len(),
{
    if s.len() == 0 || from.len() == 0 {
        s
    } else if found_at(s, from, 0) {
        to + with_replaced(s.skip(from.len() as int), from, to)
    } else {
        seq![s[0]] + with_replaced(s.drop_first(), from, to)
    }
}

/// `s` with the character `from` replaced by `to`.
pub open spec fn with_char_replaced(s: Seq<char>, from: char, to: char) -> Seq<char> {
    s.map_values(|c: char| if c == from { to } else { c })
}

/// `count` times the character `c`.
pub open spec fn repeated(c: char, count: nat) -> Seq<char> {
    Seq::new(count, |i: int| c)
}

/// The lower-case form of an ASCII character.
pub open spec fn ascii_lower(c: char) -> char {
    if 'A' <= c <= 'Z' {
        (c as u32 + 32) as char
    } else {
        c
    }
}

/// What a fallible operation hands out, with the values taken by their views.
pub open spec fn result_view<T: View, E: View>(r: Result<T, E>) -> Result<T::V, E::V> {
    match r {
        Ok(t) => Ok(t@),
        Err(e) => Err(e@),
    }
}

// ---------------------------------------------------------------------------
// What std computes
// ---------------------------------------------------------------------------
/// The Unicode lower-case form of a text, as `str::to_lowercase` computes it.
pub uninterp spec fn lowercase(s: Seq<char>) -> Seq<char>;

/// `str::to_lowercase`: the result depends on the characters alone, and an ASCII text has
/// each of its letters lowered on its own.
pub assume_specification[ str::to_lowercase ](s: &str) -> (r: String)
    ensures
        r@ == lowercase(s@),
        is_ascii_chars(s@) ==> r@ == s@.map_values(|c: char| ascii_lower(c)),
;

/// `String::push`: appends one character.
pub assume_specification[ String::push ](s: &mut String, c: char)
    ensures
        final(s)@ == old(s)@.push(c),
;

/// `String::from_utf8`, with the error given as its text: valid UTF-8 is decoded, anything
/// else is refused, with a text that depends on the bytes alone.
#[verifier::external_body]
pub(crate) fn decode_text(bytes: Vec<u8>) -> (r: Result<String, String>)
    ensures
        r is Ok <==> valid_utf8(bytes@),
        r matches Ok(s) ==> s@ == decode_utf8(bytes@),
        r matches Err(e) ==> e@ == utf8_fault(bytes@),
{
    String::from_utf8(bytes).map_err(|e| e.to_string())
}

/// The text of the error with which `String::from_utf8` refuses bytes.
pub uninterp spec fn utf8_fault(bytes: Seq<u8>) -> Seq<char>;

// ---------------------------------------------------------------------------
// The operations
// ---------------------------------------------------------------------------
/// The characters of `s`.
pub fn chars_of(s: &str) -> (r: Vec<char>)
    ensures
        r@ == s@,
{
    let mut out: Vec<char> = Vec::new();
    for c in it: s.chars()
        invariant
            it.seq() == s@,
            out@ == s@.take(it.index() as int),
    {
        out.push(c);
        assert(out@ == s@.take(it.index() + 1));
    }
    assert(s@.take(s@.len() as int) == s@);
    out
}

/// The text made of the characters `from..to` of `chars`.
pub fn string_of(chars: &[char], from: usize, to: usize) -> (r: String)
    requires
        from <= to <= chars@.len(),
    ensures
        r@ == chars@.subrange(from as int, to as int),
{
    let mut out = String::new();
    for i in from..to
        invariant
            from <= to <= chars@.len(),
            out@ == chars@.subrange(from as int, i as int),
    {
        out.push(chars[i]);
        assert(out@ == chars@.subrange(from as int, i + 1));
    }
    out
}

/// A copy of an optional text.
pub fn copy_option(s: &Option<String>) -> (r: Option<String>)
    ensures
        r == *s,
{
    match s {
        Some(s) => Some(s.clone()),
        None => None,
    }
}

/// The view of an optional text.
pub open spec fn option_view(s: Option<String>) -> Option<Seq<char>> {
    match s {
        Some(s) => Some(s@),
        None => None,
    }
}

/// Whether two texts are the same.
pub fn same(a: &str, b: &str) -> (r: bool)
    ensures
        r == (a@ == b@),
{
    a.to_owned() == b.to_owned()
}

/// `a` followed by `b`.
pub fn join2(a: &str, b: &str) -> (r: String)
    ensures
        r@ == a@ + b@,
{
    let mut out = a.to_owned();
    out.append(b);
    out
}

/// `a` followed by `b` and `c`.
pub fn join3(a: &str, b: &str, c: &str) -> (r: String)
    ensures
        r@ == a@ + b@ + c@,
{
    let mut out = a.to_owned();
    out.append(b);
    out.append(c);
    out
}

/// Whether `pat` stands in `chars` at position `at`.
fn matches_at(chars: &[char], pat: &[char], at: usize) -> (r: bool)
    requires
        at <= chars@.len(),
    ensures
        r == found_at(chars@, pat@, at as int),
{
    if chars.len() - at < pat.len() {
        return false;
    }
    for i in 0..pat.len()
        invariant
            at + pat@.len() <= chars@.len() <= usize::MAX,
            forall|j: int| 0 <= j < i ==> chars@[at + j] == pat@[j],
    {
        if chars[at + i] != pat[i] {
            assert(chars@.subrange(at as int, at + pat@.len())[i as int] != pat@[i as int]);
            return false;
        }
    }
    assert(chars@.subrange(at as int, at + pat@.len()) =~= pat@);
    true
}

/// Whether `pat` stands somewhere in `s`.
pub fn contains(s: &str, pat: &str) -> (r: bool)
    ensures
        r == has_text(s@, pat@),
{
    let chars = chars_of(s);
    let wanted = chars_of(pat);
    let mut at: usize = 0;
    while at <= chars.len()
        invariant
            chars@ == s@,
            wanted@ == pat@,
            at <= chars@.len() + 1,
            forall|i: int| 0 <= i < at ==> !found_at(s@, pat@, i),
        decreases chars@.len() + 1 - at,
    {
        if matches_at(&chars, &wanted, at) {
            return true;
        }
        if at == chars.len() {
            assert forall|i: int| !found_at(s@, pat@, i) by {
                assert(i <= at || i > s@.len());
            }
            return false;
        }
        at = at + 1;
    }
    false
}

/// Whether `s` begins with `pat`.
pub fn starts_with(s: &str, pat: &str) -> (r: bool)
    ensures
        r == found_at(s@, pat@, 0),
{
    let chars = chars_of(s);
    let wanted = chars_of(pat);
    matches_at(&chars, &wanted, 0)
}

proof fn lemma_split_nonempty(s: Seq<char>, sep: char)
    ensures
        split_on(s, sep).len() >= 1,
    decreases s.len(),
{
    if s.len() > 0 {
        lemma_split_nonempty(s.drop_last(), sep);
    }
}

/// The parts of `s` between the occurrences of `sep`.
pub fn split(s: &str, sep: char) -> (r: Vec<String>)
    ensures
        r.deep_view() == split_on(s@, sep),
        r@.len() >= 1,
{
    let chars = chars_of(s);
    let mut parts: Vec<String> = Vec::new();
    let mut current = String::new();
    for i in 0..chars.len()
        invariant
            chars@ == s@,
            parts.deep_view().push(current@) == split_on(s@.take(i as int), sep),
    {
        let ghost shorter = s@.take(i as int);
        let ghost longer = s@.take(i + 1);
        assert(longer.drop_last() == shorter);
        let ghost done = parts.deep_view();
        if chars[i] == sep {
            parts.push(current);
            current = String::new();
            assert(parts.deep_view() == done.push(split_on(shorter, sep).last()));
            assert(parts.deep_view() == split_on(shorter, sep));
        } else {
            let ghost last = current@;
            current.push(chars[i]);
            assert(parts.deep_view().push(current@) == split_on(shorter, sep).update(
                done.len() as int,
                last.push(chars@[i as int]),
            ));
        }
    }
    assert(s@.take(s@.len() as int) == s@);
    let ghost done = parts.deep_view();
    let ghost last = current@;
    parts.push(current);
    assert(parts.deep_view() == done.push(last));
    parts
}

/// Whether `c` is white space.
pub fn is_whitespace(c: char) -> (r: bool)
    ensures
        r == is_space(c),
{
    ('\u{9}' <= c && c <= '\u{d}') || c == ' ' || c == '\u{85}' || c == '\u{a0}' || c == '\u{1680}'
        || ('\u{2000}' <= c && c <= '\u{200a}') || c == '\u{2028}' || c == '\u{2029}' || c
        == '\u{202f}' || c == '\u{205f}' || c == '\u{3000}'
}

/// `s` without the white space at either end.
pub fn trim(s: &str) -> (r: String)
    ensures
        r@ == trimmed(s@),
{
    let chars = chars_of(s);
    let mut from: usize = 0;
    assert(s@.skip(0) == s@);
    while from < chars.len() && is_whitespace(chars[from])
        invariant
            chars@ == s@,
            from <= chars@.len(),
            trimmed_front(s@) == trimmed_front(s@.skip(from as int)),
        decreases chars@.len() - from,
    {
        assert(s@.skip(from as int).drop_first() == s@.skip(from + 1));
        from = from + 1;
    }
    assert(trimmed_front(s@) == s@.skip(from as int));
    let mut to: usize = chars.len();
    assert(s@.subrange(from as int, to as int) == s@.skip(from as int));
    while to > from && is_whitespace(chars[to - 1])
        invariant
            chars@ == s@,
            from <= to <= chars@.len(),
            trimmed(s@) == trimmed_back(s@.subrange(from as int, to as int)),
        decreases to,
    {
        assert(s@.subrange(from as int, to as int).drop_last() == s@.subrange(
            from as int,
            to - 1,
        ));
        to = to - 1;
    }
    string_of(&chars, from, to)
}

/// The first word of `s`, where it has one.
pub fn find_first_word(s: &str) -> (r: Option<String>)
    ensures
        option_view(r) == first_word(s@),
{
    let chars = chars_of(s);
    let mut from: usize = 0;
    assert(s@.skip(0) == s@);
    while from < chars.len() && is_whitespace(chars[from])
        invariant
            chars@ == s@,
            from <= chars@.len(),
            trimmed_front(s@) == trimmed_front(s@.skip(from as int)),
        decreases chars@.len() - from,
    {
        assert(s@.skip(from as int).drop_first() == s@.skip(from + 1));
        from = from + 1;
    }
    assert(trimmed_front(s@) == s@.skip(from as int));
    let mut word = String::new();
    let mut at: usize = from;
    assert(word@ + until_space(s@.skip(from as int)) == until_space(s@.skip(from as int)));
    while at < chars.len() && !is_whitespace(chars[at])
        invariant
            chars@ == s@,
            from <= at <= chars@.len(),
            until_space(trimmed_front(s@)) == word@ + until_space(s@.skip(at as int)),
        decreases chars@.len() - at,
    {
        let ghost before = word@;
        let ghost rest = s@.skip(at as int);
        assert(rest.drop_first() == s@.skip(at + 1));
        word.push(chars[at]);
        at = at + 1;
        assert(before + (seq![rest[0]] + until_space(s@.skip(at as int))) == word@ + until_space(
            s@.skip(at as int),
        ));
    }
    assert(until_space(s@.skip(at as int)) == Seq::<char>::empty());
    assert(until_space(trimmed_front(s@)) == word@);
    if word.as_str().is_empty() {
        None
    } else {
        Some(word)
    }
}

/// `s` without the run of `c` at its end.
pub fn trim_end_matches(s: &str, c: char) -> (r: String)
    ensures
        r@ == without_trailing(s@, c),
{
    let chars = chars_of(s);
    let mut to: usize = chars.len();
    assert(s@.take(to as int) == s@);
    while to > 0 && chars[to - 1] == c
        invariant
            chars@ == s@,
            to <= chars@.len(),
            without_trailing(s@, c) == without_trailing(s@.take(to as int), c),
        decreases to,
    {
        assert(s@.take(to as int).drop_last() == s@.take(to - 1));
        to = to - 1;
    }
    assert(s@.take(to as int) == s@.subrange(0, to as int));
    string_of(&chars, 0, to)
}

/// `s` with each occurrence of `from`, taken from the left, replaced by `to`.
pub fn replace(s: &str, from: &str, to: &str) -> (r: String)
    requires
        from@.len() > 0,
    ensures
        r@ == with_replaced(s@, from@, to@),
{
    let chars = chars_of(s);
    let wanted = chars_of(from);
    let mut out = String::new();
    let mut at: usize = 0;
    assert(s@.skip(0) == s@);
    while at < chars.len()
        invariant
            chars@ == s@,
            wanted@ == from@,
            from@.len() > 0,
            at <= chars@.len(),
            with_replaced(s@, from@, to@) == out@ + with_replaced(s@.skip(at as int), from@, to@),
        decreases chars@.len() - at,
    {
        let ghost rest = s@.skip(at as int);
        let ghost before = out@;
        let hit = matches_at(&chars, &wanted, at);
        proof {
            if at + from@.len() <= s@.len() {
                assert(rest.subrange(0, from@.len() as int) == s@.subrange(
                    at as int,
                    at + from@.len(),
                ));
            }
        }
        if hit {
            assert(rest.skip(from@.len() as int) == s@.skip(at + from@.len()));
            out.append(to);
            at = at + wanted.len();
            assert(before + (to@ + with_replaced(s@.skip(at as int), from@, to@)) == out@
                + with_replaced(s@.skip(at as int), from@, to@));
        } else {
            assert(rest.drop_first() == s@.skip(at + 1));
            out.push(chars[at]);
            at = at + 1;
            assert(before + (seq![rest[0]] + with_replaced(s@.skip(at as int), from@, to@)) == out@
                + with_replaced(s@.skip(at as int), from@, to@));
        }
    }
    assert(s@.skip(at as int) =~= Seq::<char>::empty());
    out
}

/// `s` with the character `from` replaced by `to`.
pub fn replace_char(s: &str, from: char, to: char) -> (r: String)
    ensures
        r@ == with_char_replaced(s@, from, to),
{
    let chars = chars_of(s);
    let mut out = String::new();
    for i in 0..chars.len()
        invariant
            chars@ == s@,
            out@ == with_char_replaced(s@.take(i as int), from, to),
    {
        if chars[i] == from {
            out.push(to);
        } else {
            out.push(chars[i]);
        }
        assert(out@ == with_char_replaced(s@.take(i + 1), from, to));
    }
    assert(s@.take(s@.len() as int) == s@);
    out
}

/// `count` times the character `c`.
pub fn repeat(c: char, count: usize) -> (r: String)
    ensures
        r@ == repeated(c, count as nat),
{
    let mut out = String::new();
    for i in 0..count
        invariant
            out@ == repeated(c, i as nat),
    {
        out.push(c);
        assert(out@ == repeated(c, (i + 1) as nat));
    }
    out
}

/// A text is split at a separator as its parts before and behind that separator are.
pub proof fn splitting_is_local(a: Seq<char>, b: Seq<char>, sep: char)
    ensures
        split_on(a + seq![sep] + b, sep) == split_on(a, sep) + split_on(b, sep),
        split_on(a, sep).len() >= 1,
    decreases a.len() + b.len(),
{
    let s = a + seq![sep] + b;
    if a.len() > 0 {
        splitting_is_local(a.drop_last(), Seq::empty(), sep);
    }
    if b.len() == 0 {
        assert(s.drop_last() =~= a);
        assert(split_on(s, sep) =~= split_on(a, sep) + split_on(b, sep));
    } else {
        assert(s.drop_last() =~= a + seq![sep] + b.drop_last());
        splitting_is_local(a, b.drop_last(), sep);
        splitting_is_local(b.drop_last(), Seq::empty(), sep);
        assert(split_on(s, sep) =~= split_on(a, sep) + split_on(b, sep));
    }
}

/// A text without the separator is one part.
pub proof fn unseparated_texts_are_whole(s: Seq<char>, sep: char)
    requires
        !s.contains(sep),
    ensures
        split_on(s, sep) == seq![s],
    decreases s.len(),
{
    if s.len() == 0 {
        assert(s =~= Seq::empty());
    } else {
        assert forall|i: int| 0 <= i < s.drop_last().len() implies s.drop_last()[i] != sep by {
            assert(s[i] == s.drop_last()[i]);
        }
        unseparated_texts_are_whole(s.drop_last(), sep);
        assert(s[s.len() - 1] != sep);
        assert(s.drop_last().push(s.last()) =~= s);
        assert(split_on(s, sep) =~= seq![s]);
    }
}

} // verus!
