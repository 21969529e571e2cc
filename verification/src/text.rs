//! Text: the few operations on strings that the rest of the crate is built from.
//!
//! A string is modelled by the sequence of its characters, and every
//! operation here is stated on that sequence.

use vstd::prelude::*;
use vstd::string::*;

verus! {

/// The characters with the Unicode property `White_Space`.
pub open spec fn is_white_space(c: char) -> bool {
    ||| '\u{9}' <= c <= '\u{d}'
    ||| c == ' '
    ||| c == '\u{85}'
    ||| c == '\u{a0}'
    ||| c == '\u{1680}'
    ||| '\u{2000}' <= c <= '\u{200a}'
    ||| c == '\u{2028}'
    ||| c == '\u{2029}'
    ||| c == '\u{202f}'
    ||| c == '\u{205f}'
    ||| c == '\u{3000}'
}

/// `text` without the white space at its start.
pub open spec fn trimmed_start(text: Seq<char>) -> Seq<char>
    decreases text.len(),
{
    if text.len() > 0 && is_white_space(text.first()) {
        trimmed_start(text.drop_first())
    } else {
        text
    }
}

/// `text` without the white space at its end.
pub open spec fn trimmed_end(text: Seq<char>) -> Seq<char>
    decreases text.len(),
{
    if text.len() > 0 && is_white_space(text.last()) {
        trimmed_end(text.drop_last())
    } else {
        text
    }
}

/// `text` without the white space around it.
pub open spec fn trimmed(text: Seq<char>) -> Seq<char> {
    trimmed_end(trimmed_start(text))
}

/// `text` without the run of `c` at its end.
pub open spec fn without_trailing(text: Seq<char>, c: char) -> Seq<char>
    decreases text.len(),
{
    if text.len() > 0 && text.last() == c {
        without_trailing(text.drop_last(), c)
    } else {
        text
    }
}

/// Whether `needle` occurs in `text` as one piece.
pub open spec fn occurs_in(needle: Seq<char>, text: Seq<char>) -> bool {
    exists|i: int| 0 <= i <= text.len() && needle.is_prefix_of(#[trigger] text.skip(i))
}

/// What stands in `text` before the first `c`, where there is one.
pub open spec fn before_first(text: Seq<char>, c: char) -> Option<Seq<char>> {
    match text.index_of_first(c) {
        Some(i) => Some(text.take(i)),
        None => None,
    }
}

/// Pieces of text put together, with `separator` between each and the next.
pub open spec fn joined(pieces: Seq<Seq<char>>, separator: Seq<char>) -> Seq<char>
    decreases pieces.len(),
{
    if pieces.len() == 0 {
        Seq::empty()
    } else if pieces.len() == 1 {
        pieces[0]
    } else {
        joined(pieces.drop_last(), separator) + separator + pieces.last()
    }
}

/// The view of a string that may be missing.
pub open spec fn option_text(text: Option<String>) -> Option<Seq<char>> {
    match text {
        Some(text) => Some(text@),
        None => None,
    }
}

/// The first of two values that is not missing.
pub open spec fn first_of<T>(first: Option<T>, second: Option<T>) -> Option<T> {
    match first {
        Some(value) => Some(value),
        None => second,
    }
}

/// The text, or the empty text where it is missing.
pub open spec fn text_or_empty(text: Option<Seq<char>>) -> Seq<char> {
    match text {
        Some(text) => text,
        None => Seq::empty(),
    }
}

/// The value, or another where it is missing.
pub open spec fn or_default<T>(value: Option<T>, default: T) -> T {
    match value {
        Some(value) => value,
        None => default,
    }
}

/// `String::push`: puts one character at the end.
pub assume_specification[ String::push ](text: &mut String, c: char)
    ensures
        final(text)@ == old(text)@.push(c),
;

/// The characters of `text`.
pub fn characters(text: &str) -> (characters: Vec<char>)
    ensures
        characters@ == text@,
{
    let mut characters: Vec<char> = Vec::new();
    for c in iter: text.chars()
        invariant
            iter.seq() == text@,
            characters@ == text@.take(iter.index() as int),
    {
        characters.push(c);
    }
    characters
}

/// Whether the two texts are the same.
pub fn same_text(a: &str, b: &str) -> (same: bool)
    ensures
        same == (a@ == b@),
{
    let (left, right) = (a.as_bytes(), b.as_bytes());
    if left.len() != right.len() {
        return false;
    }
    for i in 0..left.len()
        invariant
            left.len() == right.len(),
            left@ == a.spec_bytes(),
            right@ == b.spec_bytes(),
            forall|j: int| 0 <= j < i ==> left[j] == right[j],
    {
        if left[i] != right[i] {
            return false;
        }
    }
    proof {
        assert(left@ =~= right@);
        vstd::utf8::encode_utf8_decode_utf8(a@);
        vstd::utf8::encode_utf8_decode_utf8(b@);
    }
    true
}

/// Whether `c` is white space.
pub fn white_space(c: char) -> (yes: bool)
    ensures
        yes == is_white_space(c),
{
    ('\u{9}' <= c && c <= '\u{d}') || c == ' ' || c == '\u{85}' || c == '\u{a0}' || c == '\u{1680}'
        || ('\u{2000}' <= c && c <= '\u{200a}') || c == '\u{2028}' || c == '\u{2029}' || c
        == '\u{202f}' || c == '\u{205f}' || c == '\u{3000}'
}

/// `text` without the white space around it.
pub fn trim(text: &str) -> (inner: &str)
    ensures
        inner@ == trimmed(text@),
{
    let characters = characters(text);
    let mut start: usize = 0;
    assert(text@.skip(0) =~= text@);
    while start < characters.len() && white_space(characters[start])
        invariant
            characters@ == text@,
            start <= characters.len(),
            trimmed_start(text@.skip(start as int)) == trimmed_start(text@),
        decreases characters.len() - start,
    {
        assert(text@.skip(start as int).drop_first() =~= text@.skip(start + 1));
        start = start + 1;
    }
    let ghost rest = text@.skip(start as int);
    let mut end: usize = characters.len();
    assert(text@.subrange(start as int, end as int) =~= rest);
    while start < end && white_space(characters[end - 1])
        invariant
            characters@ == text@,
            start <= end <= characters.len(),
            trimmed_end(text@.subrange(start as int, end as int)) == trimmed_end(rest),
        decreases end,
    {
        assert(text@.subrange(start as int, end as int).drop_last() =~= text@.subrange(
            start as int,
            end - 1,
        ));
        end = end - 1;
    }
    text.substring_char(start, end)
}

/// `text` without the run of `c` at its end.
pub fn trim_trailing(text: &str, c: char) -> (rest: &str)
    ensures
        rest@ == without_trailing(text@, c),
{
    let characters = characters(text);
    let mut end: usize = characters.len();
    assert(text@.take(end as int) =~= text@);
    while 0 < end && characters[end - 1] == c
        invariant
            characters@ == text@,
            end <= characters.len(),
            without_trailing(text@.take(end as int), c) == without_trailing(text@, c),
        decreases end,
    {
        assert(text@.take(end as int).drop_last() =~= text@.take(end - 1));
        end = end - 1;
    }
    assert(text@.subrange(0, end as int) =~= text@.take(end as int));
    text.substring_char(0, end)
}

/// Whether `needle` stands in `text` from the position `at` on.
fn stands_at(text: &Vec<char>, at: usize, needle: &Vec<char>) -> (found: bool)
    requires
        at <= text.len(),
    ensures
        found == needle@.is_prefix_of(text@.skip(at as int)),
{
    if text.len() - at < needle.len() {
        return false;
    }
    for i in 0..needle.len()
        invariant
            at + needle.len() <= text.len(),
            forall|j: int| 0 <= j < i ==> needle@[j] == text@[at + j],
    {
        if text[at + i] != needle[i] {
            assert(text@.skip(at as int).subrange(0, needle@.len() as int)[i as int] != needle@[i as int]);
            return false;
        }
    }
    assert(needle@ =~= text@.skip(at as int).subrange(0, needle@.len() as int));
    true
}

/// Whether `text` begins with `prefix`.
pub fn begins_with(text: &str, prefix: &str) -> (yes: bool)
    ensures
        yes == prefix@.is_prefix_of(text@),
{
    assert(text@.skip(0) =~= text@);
    stands_at(&characters(text), 0, &characters(prefix))
}

/// What follows `prefix`, where `text` begins with it.
pub fn after_prefix<'a>(text: &'a str, prefix: &str) -> (rest: Option<&'a str>)
    ensures
        rest is Some <==> prefix@.is_prefix_of(text@),
        rest matches Some(rest) ==> rest@ == text@.skip(prefix@.len() as int),
{
    if begins_with(text, prefix) {
        Some(text.substring_char(prefix.unicode_len(), text.unicode_len()))
    } else {
        None
    }
}

/// Whether `needle` occurs in `text`.
pub fn contains(text: &str, needle: &str) -> (yes: bool)
    ensures
        yes == occurs_in(needle@, text@),
{
    let (text_chars, needle_chars) = (characters(text), characters(needle));
    let mut at: usize = 0;
    while at < text_chars.len()
        invariant
            text_chars@ == text@,
            needle_chars@ == needle@,
            at <= text_chars.len(),
            forall|i: int| 0 <= i < at ==> !needle@.is_prefix_of(#[trigger] text@.skip(i)),
        decreases text_chars.len() - at,
    {
        if stands_at(&text_chars, at, &needle_chars) {
            return true;
        }
        at = at + 1;
    }
    stands_at(&text_chars, at, &needle_chars)
}

/// What stands in `text` before the first `c`, where there is one.
pub fn head_before(text: &str, c: char) -> (head: Option<&str>)
    ensures
        head is Some <==> before_first(text@, c) is Some,
        head matches Some(head) ==> before_first(text@, c) == Some(head@),
{
    proof {
        text@.index_of_first_ensures(c);
    }
    let characters = characters(text);
    for i in 0..characters.len()
        invariant
            characters@ == text@,
            forall|j: int| 0 <= j < i ==> text@[j] != c,
    {
        if characters[i] == c {
            proof {
                text@.index_of_first_ensures(c);
                assert(text@.contains(c));
                assert(text@.subrange(0, i as int) =~= text@.take(i as int));
            }
            return Some(text.substring_char(0, i));
        }
    }
    None
}

/// Pieces of text put together, with `separator` between each and the next.
pub fn join(pieces: &Vec<String>, separator: &str) -> (text: String)
    ensures
        text@ == joined(pieces@.map_values(|piece: String| piece@), separator@),
{
    let ghost views = pieces@.map_values(|piece: String| piece@);
    let mut text = String::new();
    for i in 0..pieces.len()
        invariant
            views == pieces@.map_values(|piece: String| piece@),
            text@ == joined(views.take(i as int), separator@),
    {
        if i > 0 {
            text.append(separator);
        }
        text.append(pieces[i].as_str());
        assert(views.take(i + 1).drop_last() =~= views.take(i as int));
    }
    assert(views.take(pieces.len() as int) =~= views);
    text
}

/// `a` followed by `b`.
pub fn followed_by(a: &str, b: &str) -> (text: String)
    ensures
        text@ == a@ + b@,
{
    let mut text = a.to_owned();
    text.append(b);
    text
}

} // verus!
