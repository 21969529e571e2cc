//! What holds of the operations on text, whatever the text.

use crate::text::{
    before_first, first_of, is_white_space, joined, occurs_in, option_text, or_default,
    text_or_empty, trimmed, trimmed_end, trimmed_start, without_trailing,
};
use vstd::prelude::*;

verus! {

/// Whether the text is white space throughout.
pub open spec fn all_white(text: Seq<char>) -> bool {
    forall|i: int| 0 <= i < text.len() ==> is_white_space(#[trigger] text[i])
}

/// Whether the text neither begins nor ends with white space.
pub open spec fn bare(text: Seq<char>) -> bool {
    text.len() > 0 ==> !is_white_space(text.first()) && !is_white_space(text.last())
}

/// White space at the start is taken off, and nothing after it.
proof fn lemma_trimmed_start(before: Seq<char>, rest: Seq<char>)
    requires
        all_white(before),
        rest.len() > 0 ==> !is_white_space(rest.first()),
    ensures
        trimmed_start(before + rest) == rest,
    decreases before.len(),
{
    if before.len() == 0 {
        assert(before + rest =~= rest);
    } else {
        let text = before + rest;
        assert(is_white_space(before[0]));
        assert(text.first() == before[0]);
        let shorter = before.drop_first();
        assert forall|i: int| 0 <= i < shorter.len() implies is_white_space(#[trigger] shorter[i]) by {
            assert(shorter[i] == before[i + 1]);
        }
        assert(text.drop_first() =~= shorter + rest);
        lemma_trimmed_start(shorter, rest);
    }
}

/// White space at the end is taken off, and nothing before it.
proof fn lemma_trimmed_end(rest: Seq<char>, after: Seq<char>)
    requires
        all_white(after),
        rest.len() > 0 ==> !is_white_space(rest.last()),
    ensures
        trimmed_end(rest + after) == rest,
    decreases after.len(),
{
    if after.len() == 0 {
        assert(rest + after =~= rest);
    } else {
        let text = rest + after;
        assert(is_white_space(after[after.len() - 1]));
        assert(text.last() == after[after.len() - 1]);
        let shorter = after.drop_last();
        assert forall|i: int| 0 <= i < shorter.len() implies is_white_space(#[trigger] shorter[i]) by {
            assert(shorter[i] == after[i]);
        }
        assert(text.drop_last() =~= rest + shorter);
        lemma_trimmed_end(rest, shorter);
    }
}

/// The white space around a text is taken off, and nothing else.
pub proof fn law_trimming_takes_off_what_is_around(
    before: Seq<char>,
    inner: Seq<char>,
    after: Seq<char>,
)
    requires
        all_white(before),
        bare(inner),
        all_white(after),
    ensures
        trimmed(before + inner + after) == inner,
{
    let text = before + inner + after;
    if inner.len() == 0 {
        assert forall|i: int| 0 <= i < text.len() implies is_white_space(#[trigger] text[i]) by {
            if i < before.len() {
                assert(text[i] == before[i]);
            } else {
                assert(text[i] == after[i - before.len()]);
            }
        }
        assert(text + Seq::<char>::empty() =~= text);
        lemma_trimmed_start(text, Seq::empty());
        assert(inner =~= Seq::empty());
    } else {
        assert(text =~= before + (inner + after));
        assert((inner + after).first() == inner.first());
        lemma_trimmed_start(before, inner + after);
        lemma_trimmed_end(inner, after);
    }
}

/// Every `c` at the end of a text is taken off, and nothing else.
pub proof fn law_trailing_characters_are_taken_off(text: Seq<char>, c: char, tail: Seq<char>)
    requires
        text.len() > 0 ==> text.last() != c,
        forall|i: int| 0 <= i < tail.len() ==> #[trigger] tail[i] == c,
    ensures
        without_trailing(text + tail, c) == text,
    decreases tail.len(),
{
    if tail.len() == 0 {
        assert(text + tail =~= text);
    } else {
        assert(tail[tail.len() - 1] == c);
        assert((text + tail).drop_last() =~= text + tail.drop_last());
        law_trailing_characters_are_taken_off(text, c, tail.drop_last());
    }
}

/// A piece occurs in every text that it stands in, whatever is around it.
pub proof fn law_a_piece_occurs(before: Seq<char>, needle: Seq<char>, after: Seq<char>)
    ensures
        occurs_in(needle, before + needle + after),
{
    let text = before + needle + after;
    let rest = text.skip(before.len() as int);
    assert(rest.subrange(0, needle.len() as int) =~= needle);
    assert(needle.is_prefix_of(rest));
}

/// And it occurs in no other text.
pub proof fn law_what_occurs_is_a_piece(needle: Seq<char>, text: Seq<char>)
    requires
        occurs_in(needle, text),
    ensures
        exists|before: Seq<char>, after: Seq<char>| text == #[trigger] (before + needle + after),
{
    let i = choose|i: int| 0 <= i <= text.len() && needle.is_prefix_of(#[trigger] text.skip(i));
    let rest = text.skip(i);
    let before = text.take(i);
    let after = rest.skip(needle.len() as int);
    assert(rest =~= needle + after);
    assert(text =~= before + needle + after);
}

/// What stands before the first `c` is found, whatever follows; in a text
/// without `c` nothing is.
pub proof fn law_before_the_first(head: Seq<char>, c: char, tail: Seq<char>)
    requires
        forall|i: int| 0 <= i < head.len() ==> #[trigger] head[i] != c,
    ensures
        before_first(head.push(c) + tail, c) == Some(head),
        before_first(head, c) is None,
{
    let text = head.push(c) + tail;
    head.index_of_first_ensures(c);
    text.index_of_first_ensures(c);
    assert(text[head.len() as int] == c);
    assert(text.contains(c));
    let at = text.index_of_first(c)->0;
    if at < head.len() {
        assert(text[at] == head[at]);
    }
    assert(text.take(at) =~= head);
}

/// Two runs of pieces put together are the first, the separator, and the
/// second; one piece is itself, and no pieces are the empty text.
pub proof fn law_pieces_are_joined(
    first: Seq<Seq<char>>,
    second: Seq<Seq<char>>,
    separator: Seq<char>,
)
    ensures
        first.len() == 0 ==> joined(first, separator).len() == 0,
        first.len() == 1 ==> joined(first, separator) == first[0],
        first.len() > 0 && second.len() > 0 ==> joined(first + second, separator) == joined(
            first,
            separator,
        ) + separator + joined(second, separator),
    decreases second.len(),
{
    if first.len() > 0 && second.len() > 0 {
        let all = first + second;
        let shorter = second.drop_last();
        assert(all.drop_last() =~= first + shorter);
        assert(all.last() == second.last());
        if second.len() == 1 {
            assert(first + shorter =~= first);
        } else {
            law_pieces_are_joined(first, shorter, separator);
            assert(joined(first, separator) + separator + joined(shorter, separator) + separator
                + second.last() =~= joined(first, separator) + separator + (joined(
                shorter,
                separator,
            ) + separator + second.last()));
        }
    }
}

/// The first of two values counts where it is there, else the second; what
/// stands in for a missing value is used only where it is missing.
pub proof fn law_what_is_there_counts<T>(first: Option<T>, second: Option<T>, default: T)
    ensures
        first is Some ==> first_of(first, second) == first && or_default(first, default)
            == first->0,
        first is None ==> first_of(first, second) == second && or_default(first, default)
            == default,
{
}

/// The same of text.
pub proof fn law_text_that_is_there_counts(text: Option<Seq<char>>, string: Option<String>)
    ensures
        text matches Some(text) ==> text_or_empty(Some(text)) == text,
        text is None ==> text_or_empty(text).len() == 0,
        string matches Some(string) ==> option_text(Some(string)) == Some(string@),
        string is None ==> option_text(string) is None,
{
}

} // verus!
