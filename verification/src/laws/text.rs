//! Laws of the text operations.
use vstd::prelude::*;
use vstd::string::*;

use crate::text;

verus! {

/// Of the ASCII characters the blank and the five controls from tab to carriage return are white
/// space, and no other.
pub proof fn ascii_white_space(c: char)
    requires
        c < '\u{80}',
    ensures
        text::is_space(c) <==> c == ' ' || c == '\t' || c == '\n' || c == '\u{b}' || c == '\u{c}' || c
            == '\r',
{
}

/// Beyond ASCII, white space is what Unicode says it is.
pub proof fn unicode_white_space(c: char)
    requires
        c >= '\u{80}',
    ensures
        text::is_space(c) <==> c == '\u{85}' || c == '\u{a0}' || c == '\u{1680}' || '\u{2000}' <= c
            <= '\u{200a}' || c == '\u{2028}' || c == '\u{2029}' || c == '\u{202f}' || c
            == '\u{205f}' || c == '\u{3000}',
{
}

proof fn lemma_front(s: Seq<char>) -> (i: int)
    ensures
        0 <= i <= s.len(),
        text::trimmed_front(s) == s.skip(i),
        forall|k: int| 0 <= k < i ==> text::is_space(#[trigger] s[k]),
        i < s.len() ==> !text::is_space(s[i]),
    decreases s.len(),
{
    if s.len() > 0 && text::is_space(s[0]) {
        let j = lemma_front(s.drop_first());
        assert(s.drop_first().skip(j) =~= s.skip(j + 1));
        assert forall|k: int| 0 <= k < j + 1 implies text::is_space(#[trigger] s[k]) by {
            if k > 0 {
                assert(s.drop_first()[k - 1] == s[k]);
            }
        }
        j + 1
    } else {
        assert(s.skip(0) =~= s);
        0
    }
}

proof fn lemma_back(s: Seq<char>) -> (j: int)
    ensures
        0 <= j <= s.len(),
        text::trimmed_back(s) == s.take(j),
        forall|k: int| j <= k < s.len() ==> text::is_space(#[trigger] s[k]),
        j > 0 ==> !text::is_space(s[j - 1]),
    decreases s.len(),
{
    if s.len() > 0 && text::is_space(s.last()) {
        let j = lemma_back(s.drop_last());
        assert(s.drop_last().take(j) =~= s.take(j));
        assert forall|k: int| j <= k < s.len() implies text::is_space(#[trigger] s[k]) by {
            if k < s.len() - 1 {
                assert(s.drop_last()[k] == s[k]);
            }
        }
        j
    } else {
        assert(s.take(s.len() as int) =~= s);
        s.len() as int
    }
}

/// Trimming takes white space off both ends, all of it, and nothing else.
pub proof fn trimming_takes_white_space_off(s: Seq<char>)
    ensures
        exists|i: int, j: int|
            {
                &&& 0 <= i <= j <= s.len()
                &&& text::trimmed(s) == #[trigger] s.subrange(i, j)
                &&& forall|k: int| 0 <= k < i ==> text::is_space(#[trigger] s[k])
                &&& forall|k: int| j <= k < s.len() ==> text::is_space(#[trigger] s[k])
                &&& i < j ==> !text::is_space(s[i]) && !text::is_space(s[j - 1])
            },
{
    let i = lemma_front(s);
    let rest = s.skip(i);
    let n = lemma_back(rest);
    let j = i + n;
    assert(rest.take(n) =~= s.subrange(i, j));
    assert forall|k: int| j <= k < s.len() implies text::is_space(#[trigger] s[k]) by {
        assert(rest[k - i] == s[k]);
    }
    if n > 0 {
        assert(rest[n - 1] == s[j - 1]);
    }
}

/// A text with no white space at its ends is its own trimmed form, and blanks put around it are
/// taken off again.
pub proof fn trimming_finds_what_stands_between(a: Seq<char>, word: Seq<char>, b: Seq<char>)
    requires
        forall|k: int| 0 <= k < a.len() ==> text::is_space(#[trigger] a[k]),
        forall|k: int| 0 <= k < b.len() ==> text::is_space(#[trigger] b[k]),
        word.len() > 0 ==> !text::is_space(word[0]) && !text::is_space(word.last()),
    ensures
        text::trimmed(a + word + b) == word,
{
    let s = a + word + b;
    let i = lemma_front(s);
    let rest = s.skip(i);
    let n = lemma_back(rest);
    if word.len() > 0 {
        assert(s[a.len() as int] == word[0]);
        assert(s[a.len() + word.len() - 1] == word.last());
        if i < a.len() {
            assert(s[i] == a[i]);
        }
        assert(i == a.len());
        if n > word.len() {
            assert(rest[n - 1] == b[n - 1 - word.len()]);
        } else if n < word.len() {
            assert(rest[word.len() - 1] == word.last());
        }
        assert(rest.take(n) =~= word);
    } else {
        if i < s.len() {
            if i < a.len() {
                assert(s[i] == a[i]);
            } else {
                assert(s[i] == b[i - a.len()]);
            }
        }
        assert(rest.take(n) =~= word);
    }
}

/// The first word is what stands between the white space at the front and the next white space.
pub proof fn the_first_word_is_found(a: Seq<char>, word: Seq<char>, rest: Seq<char>)
    requires
        forall|k: int| 0 <= k < a.len() ==> text::is_space(#[trigger] a[k]),
        word.len() > 0,
        forall|k: int| 0 <= k < word.len() ==> !text::is_space(#[trigger] word[k]),
        rest.len() > 0 ==> text::is_space(rest[0]),
    ensures
        text::first_word(a + word + rest) == Some(word),
{
    let s = a + word + rest;
    let i = lemma_front(s);
    assert(s[a.len() as int] == word[0]);
    if i < a.len() {
        assert(s[i] == a[i]);
    }
    assert(s.skip(i) =~= word + rest);
    lemma_until(word, rest);
}

proof fn lemma_until(word: Seq<char>, rest: Seq<char>)
    requires
        forall|k: int| 0 <= k < word.len() ==> !text::is_space(#[trigger] word[k]),
        rest.len() > 0 ==> text::is_space(rest[0]),
    ensures
        text::until_space(word + rest) == word,
    decreases word.len(),
{
    if word.len() == 0 {
        assert(word + rest =~= rest);
        assert(text::until_space(rest) =~= word);
    } else {
        let tail = word.drop_first();
        assert forall|k: int| 0 <= k < tail.len() implies !text::is_space(#[trigger] tail[k]) by {
            assert(tail[k] == word[k + 1]);
        }
        lemma_until(tail, rest);
        assert((word + rest).drop_first() =~= tail + rest);
        assert((word + rest)[0] == word[0]);
        assert(seq![word[0]] + tail =~= word);
    }
}

/// A blank text has no first word.
pub proof fn blank_texts_have_no_word(s: Seq<char>)
    requires
        forall|k: int| 0 <= k < s.len() ==> text::is_space(#[trigger] s[k]),
    ensures
        text::first_word(s) is None,
{
    let i = lemma_front(s);
}

/// Taking a character off the end takes all of its run off, and nothing else.
pub proof fn trailing_runs_are_taken_off(s: Seq<char>, c: char, count: nat)
    requires
        s.len() > 0 ==> s.last() != c,
    ensures
        text::without_trailing(s + text::repeated(c, count), c) == s,
        text::repeated(c, count).len() == count,
        forall|i: int| 0 <= i < count ==> text::repeated(c, count)[i] == c,
    decreases count,
{
    let whole = s + text::repeated(c, count);
    if count == 0 {
        assert(whole =~= s);
    } else {
        let fewer = (count - 1) as nat;
        trailing_runs_are_taken_off(s, c, fewer);
        assert(whole.last() == c);
        assert(whole.drop_last() =~= s + text::repeated(c, fewer));
    }
}

/// A text is found where it was put, and only texts with it in them hold it.
pub proof fn texts_are_found_where_they_stand(a: Seq<char>, pat: Seq<char>, b: Seq<char>)
    ensures
        text::found_at(a + pat + b, pat, a.len() as int),
        text::has_text(a + pat + b, pat),
{
    let s = a + pat + b;
    let i = a.len() as int;
    assert(s.subrange(i, i + pat.len()) =~= pat);
}

/// A text that holds another one is made of what stands before it, the other one, and what stands
/// behind it.
pub proof fn found_texts_stand_there(s: Seq<char>, pat: Seq<char>, i: int)
    requires
        text::found_at(s, pat, i),
    ensures
        0 <= i <= s.len() - pat.len(),
        s == s.take(i) + pat + s.skip(i + pat.len()),
{
    assert(s =~= s.take(i) + s.subrange(i, i + pat.len()) + s.skip(i + pat.len()));
}

/// A text that does not hold another one is not changed by replacing that.
pub proof fn replacing_nothing_changes_nothing(s: Seq<char>, from: Seq<char>, to: Seq<char>)
    requires
        !text::has_text(s, from),
    ensures
        text::with_replaced(s, from, to) == s,
    decreases s.len(),
{
    if s.len() > 0 && from.len() > 0 {
        assert(!text::found_at(s, from, 0));
        let rest = s.drop_first();
        assert forall|i: int| !text::found_at(rest, from, i) by {
            if text::found_at(rest, from, i) {
                assert(s.subrange(i + 1, i + 1 + from.len()) =~= rest.subrange(i, i + from.len()));
                assert(text::found_at(s, from, i + 1));
            }
        }
        replacing_nothing_changes_nothing(rest, from, to);
        assert(seq![s[0]] + rest =~= s);
    }
}

/// A text that begins with another one has that replaced at its front.
pub proof fn the_front_is_replaced(from: Seq<char>, rest: Seq<char>, to: Seq<char>)
    requires
        from.len() > 0,
        !text::has_text(rest, from),
    ensures
        text::with_replaced(from + rest, from, to) == to + rest,
{
    let s = from + rest;
    assert(s.subrange(0, from.len() as int) =~= from);
    assert(s.skip(from.len() as int) =~= rest);
    replacing_nothing_changes_nothing(rest, from, to);
}

/// Replacing a character keeps the length and every other character.
pub proof fn replacing_a_character(s: Seq<char>, from: char, to: char, i: int)
    requires
        0 <= i < s.len(),
    ensures
        text::with_char_replaced(s, from, to).len() == s.len(),
        s[i] == from ==> text::with_char_replaced(s, from, to)[i] == to,
        s[i] != from ==> text::with_char_replaced(s, from, to)[i] == s[i],
{
}

/// Lowering a letter gives the small letter, and lowering again changes nothing.
pub proof fn lowering_gives_small_letters(c: char)
    ensures
        'A' <= c <= 'Z' ==> text::ascii_lower(c) as int == c as int + 32,
        !('A' <= c <= 'Z') ==> text::ascii_lower(c) == c,
{
}

} // verus!
