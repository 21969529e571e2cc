//! What holds of reading an event stream, however it is cut into chunks.

use crate::provider::event::OutcomeModel;
use crate::provider::sse::{
    chunk_text, line_outcomes, lines_outcomes, read_text, split_lines, Step,
};
use vstd::prelude::*;
use vstd::utf8::{is_char_boundary, valid_utf8};

verus! {

/// Whether there is no line feed in the text.
pub open spec fn within_line(text: Seq<char>) -> bool {
    forall|i: int| 0 <= i < text.len() ==> #[trigger] text[i] != '\n'
}

/// Whether the text is one line: it ends with a line feed and holds no other.
pub open spec fn is_line(text: Seq<char>) -> bool {
    &&& text.len() > 0
    &&& text.last() == '\n'
    &&& within_line(text.drop_last())
}

/// Cutting a text into lines loses nothing and adds nothing: the lines and
/// what is pending, put together again, are the text; every line has its line
/// feed at its end and no other, and no line feed is left in what is pending.
pub proof fn law_lines_make_up_the_text(text: Seq<char>)
    ensures
        split_lines(text).complete.flatten() + split_lines(text).pending == text,
        forall|i: int|
            0 <= i < split_lines(text).complete.len() ==> is_line(
                #[trigger] split_lines(text).complete[i],
            ),
        within_line(split_lines(text).pending),
    decreases text.len(),
{
    let lines = split_lines(text);
    if text.len() == 0 {
        assert(lines.complete.flatten() + lines.pending =~= text);
    } else {
        let front = split_lines(text.drop_last());
        law_lines_make_up_the_text(text.drop_last());
        let line = front.pending.push(text.last());
        assert(text =~= text.drop_last().push(text.last()));
        assert(front.complete.flatten() + line =~= text);
        if text.last() == '\n' {
            assert(line.drop_last() =~= front.pending);
            front.complete.lemma_flatten_push(line);
            assert(lines.complete.flatten() + lines.pending =~= text);
        }
    }
}

/// A text may be cut anywhere: its lines are those of the first piece,
/// followed by those of what the first piece left pending and the second piece.
pub proof fn law_lines_of_pieces(first: Seq<char>, second: Seq<char>)
    ensures
        ({
            let left = split_lines(first);
            let right = split_lines(left.pending + second);
            &&& split_lines(first + second).complete == left.complete + right.complete
            &&& split_lines(first + second).pending == right.pending
        }),
    decreases second.len(),
{
    let left = split_lines(first);
    if second.len() == 0 {
        law_lines_make_up_the_text(first);
        lemma_within_line(left.pending);
        assert(first + second =~= first);
        assert(left.pending + second =~= left.pending);
        assert(left.complete + Seq::<Seq<char>>::empty() =~= left.complete);
    } else {
        let shorter = second.drop_last();
        law_lines_of_pieces(first, shorter);
        assert((first + second).drop_last() =~= first + shorter);
        assert((left.pending + second).drop_last() =~= left.pending + shorter);
        assert((first + second).last() == second.last());
        assert((left.pending + second).last() == second.last());
        let right = split_lines(left.pending + shorter);
        let line = right.pending.push(second.last());
        assert((left.complete + right.complete).push(line) =~= left.complete + right.complete.push(
            line,
        ));
    }
}

/// A text without a line feed is all pending.
pub proof fn lemma_within_line(text: Seq<char>)
    requires
        within_line(text),
    ensures
        split_lines(text).complete == Seq::<Seq<char>>::empty(),
        split_lines(text).pending == text,
    decreases text.len(),
{
    if text.len() > 0 {
        assert(text[text.len() - 1] != '\n');
        assert forall|i: int| 0 <= i < text.drop_last().len() implies #[trigger] text.drop_last()[i]
            != '\n' by {
            assert(text.drop_last()[i] == text[i]);
        }
        lemma_within_line(text.drop_last());
        assert(text.drop_last().push(text.last()) =~= text);
    } else {
        assert(text =~= Seq::empty());
    }
}

/// The events of some lines and some more are those of the first, then those
/// of the others.
pub proof fn law_events_of_more_lines(first: Seq<Seq<char>>, second: Seq<Seq<char>>)
    ensures
        lines_outcomes(first + second) == lines_outcomes(first) + lines_outcomes(second),
    decreases second.len(),
{
    if second.len() == 0 {
        assert(first + second =~= first);
        assert(lines_outcomes(first) + Seq::<OutcomeModel>::empty() =~= lines_outcomes(first));
    } else {
        let shorter = second.drop_last();
        law_events_of_more_lines(first, shorter);
        assert((first + second).drop_last() =~= first + shorter);
        assert((first + second).last() == second.last());
        let last = line_outcomes(second.last());
        assert((lines_outcomes(first) + lines_outcomes(shorter)) + last =~= lines_outcomes(first)
            + (lines_outcomes(shorter) + last));
    }
}

/// It does not matter how the text of the stream is cut: reading two pieces
/// one after the other yields the events, and leaves the buffer, that reading
/// them as one piece does.
pub proof fn law_text_may_be_cut_anywhere(buffer: Seq<char>, first: Seq<char>, second: Seq<char>)
    ensures
        ({
            let left = read_text(buffer, first);
            let right = read_text(left.pending, second);
            read_text(buffer, first + second) == (Step {
                events: left.events + right.events,
                pending: right.pending,
            })
        }),
{
    let left = split_lines(buffer + first);
    law_lines_of_pieces(buffer + first, second);
    assert((buffer + first) + second =~= buffer + (first + second));
    law_events_of_more_lines(left.complete, split_lines(left.pending + second).complete);
}

/// The text of two chunks of UTF-8 is the text of the first followed by that
/// of the second.
pub proof fn law_text_of_chunks(first: Seq<u8>, second: Seq<u8>)
    requires
        valid_utf8(first),
        valid_utf8(second),
    ensures
        valid_utf8(first + second),
        chunk_text(first + second) == chunk_text(first) + chunk_text(second),
{
    let all = first + second;
    let cut = first.len() as int;
    vstd::utf8::valid_utf8_concat(first, second);
    if second.len() == 0 {
        vstd::utf8::is_char_boundary_start_end_of_seq(all);
    } else {
        vstd::utf8::is_char_boundary_start_end_of_seq(second);
        vstd::utf8::is_char_boundary_iff_not_is_continuation_byte(second, 0);
        vstd::utf8::is_char_boundary_iff_not_is_continuation_byte(all, cut);
        assert(all[cut] == second[0]);
    }
    assert(is_char_boundary(all, cut));
    vstd::utf8::decode_utf8_split(all, cut);
    assert(all.subrange(0, cut) =~= first);
    assert(all.subrange(cut, all.len() as int) =~= second);
}

/// It does not matter how the bytes of the stream are cut, as long as no
/// character is cut: two chunks of UTF-8, read one after the other, yield the
/// events, and leave the buffer, that they do as one chunk.
pub proof fn law_chunks_may_be_cut_between_characters(
    buffer: Seq<char>,
    first: Seq<u8>,
    second: Seq<u8>,
)
    requires
        valid_utf8(first),
        valid_utf8(second),
    ensures
        ({
            let left = read_text(buffer, chunk_text(first));
            let right = read_text(left.pending, chunk_text(second));
            read_text(buffer, chunk_text(first + second)) == (Step {
                events: left.events + right.events,
                pending: right.pending,
            })
        }),
{
    law_text_of_chunks(first, second);
    law_text_may_be_cut_anywhere(buffer, chunk_text(first), chunk_text(second));
}

/// The buffer never holds a whole line: no line feed is ever left in it.
pub proof fn law_buffer_holds_no_line_feed(buffer: Seq<char>, text: Seq<char>)
    ensures
        within_line(read_text(buffer, text).pending),
{
    law_lines_make_up_the_text(buffer + text);
}

/// What reading some pieces of text one after the other yields.
pub open spec fn read_pieces(buffer: Seq<char>, pieces: Seq<Seq<char>>) -> Step
    decreases pieces.len(),
{
    if pieces.len() == 0 {
        Step { events: Seq::empty(), pending: buffer }
    } else {
        let front = read_pieces(buffer, pieces.drop_last());
        let last = read_text(front.pending, pieces.last());
        Step { events: front.events + last.events, pending: last.pending }
    }
}

/// A stream yields what its text yields, into however many pieces it is cut.
pub proof fn law_stream_yields_what_its_text_yields(buffer: Seq<char>, pieces: Seq<Seq<char>>)
    requires
        within_line(buffer),
    ensures
        read_pieces(buffer, pieces) == read_text(buffer, pieces.flatten()),
    decreases pieces.len(),
{
    if pieces.len() == 0 {
        lemma_within_line(buffer);
        assert(buffer + pieces.flatten() =~= buffer);
    } else {
        let shorter = pieces.drop_last();
        law_stream_yields_what_its_text_yields(buffer, shorter);
        law_text_may_be_cut_anywhere(buffer, shorter.flatten(), pieces.last());
        shorter.lemma_flatten_push(pieces.last());
        assert(shorter.push(pieces.last()) =~= pieces);
    }
}

/// The same of a stream in chunks, as long as no character is cut: chunks of
/// UTF-8 yield what the bytes of all of them yield as one chunk.
pub proof fn law_stream_yields_what_its_bytes_yield(buffer: Seq<char>, chunks: Seq<Seq<u8>>)
    requires
        within_line(buffer),
        forall|i: int| 0 <= i < chunks.len() ==> valid_utf8(#[trigger] chunks[i]),
    ensures
        read_pieces(buffer, chunks.map_values(|chunk: Seq<u8>| chunk_text(chunk))) == read_text(
            buffer,
            chunk_text(chunks.flatten()),
        ),
{
    lemma_text_of_all_chunks(chunks);
    law_stream_yields_what_its_text_yields(
        buffer,
        chunks.map_values(|chunk: Seq<u8>| chunk_text(chunk)),
    );
}

/// The text of some chunks of UTF-8 is that of each, one after the other.
proof fn lemma_text_of_all_chunks(chunks: Seq<Seq<u8>>)
    requires
        forall|i: int| 0 <= i < chunks.len() ==> valid_utf8(#[trigger] chunks[i]),
    ensures
        valid_utf8(chunks.flatten()),
        chunk_text(chunks.flatten()) == chunks.map_values(
            |chunk: Seq<u8>| chunk_text(chunk),
        ).flatten(),
    decreases chunks.len(),
{
    let texts = chunks.map_values(|chunk: Seq<u8>| chunk_text(chunk));
    if chunks.len() == 0 {
        assert(chunks.flatten() =~= Seq::empty());
        assert(texts.flatten() =~= Seq::empty());
        assert(chunk_text(Seq::empty()) =~= Seq::empty());
    } else {
        let shorter = chunks.drop_last();
        let last = chunks.last();
        assert forall|i: int| 0 <= i < shorter.len() implies valid_utf8(#[trigger] shorter[i]) by {
            assert(shorter[i] == chunks[i]);
        }
        assert(valid_utf8(chunks[chunks.len() - 1]));
        lemma_text_of_all_chunks(shorter);
        law_text_of_chunks(shorter.flatten(), last);
        let shorter_texts = shorter.map_values(|chunk: Seq<u8>| chunk_text(chunk));
        shorter.lemma_flatten_push(last);
        shorter_texts.lemma_flatten_push(chunk_text(last));
        assert(shorter.push(last) =~= chunks);
        assert(shorter_texts.push(chunk_text(last)) =~= texts);
    }
}

/// A line that has not come to its end yields nothing and waits.
pub proof fn law_unfinished_line_waits(buffer: Seq<char>, text: Seq<char>)
    requires
        within_line(buffer + text),
    ensures
        read_text(buffer, text) == (Step { events: Seq::empty(), pending: buffer + text }),
{
    lemma_within_line(buffer + text);
}

/// A line yields at most one event, and never an error.
pub proof fn law_line_yields_at_most_one_event(line: Seq<char>)
    ensures
        line_outcomes(line).len() <= 1,
        forall|i: int| 0 <= i < line_outcomes(line).len() ==> #[trigger] line_outcomes(line)[i] is Ok,
{
}

/// Text that has been read yields no more events than it has lines, and never
/// an error.
pub proof fn law_text_yields_events_only(buffer: Seq<char>, text: Seq<char>)
    ensures
        read_text(buffer, text).events.len() <= split_lines(buffer + text).complete.len(),
        forall|i: int|
            0 <= i < read_text(buffer, text).events.len() ==> #[trigger] read_text(
                buffer,
                text,
            ).events[i] is Ok,
{
    lemma_lines_yield_events_only(split_lines(buffer + text).complete);
}

/// The same of any lines.
proof fn lemma_lines_yield_events_only(lines: Seq<Seq<char>>)
    ensures
        lines_outcomes(lines).len() <= lines.len(),
        forall|i: int|
            0 <= i < lines_outcomes(lines).len() ==> #[trigger] lines_outcomes(lines)[i] is Ok,
    decreases lines.len(),
{
    if lines.len() > 0 {
        let front = lines_outcomes(lines.drop_last());
        lemma_lines_yield_events_only(lines.drop_last());
        law_line_yields_at_most_one_event(lines.last());
        assert forall|i: int| 0 <= i < lines_outcomes(lines).len() implies #[trigger] lines_outcomes(
            lines,
        )[i] is Ok by {
            if i >= front.len() {
                assert(lines_outcomes(lines)[i] == line_outcomes(lines.last())[i - front.len()]);
            }
        }
    }
}

} // verus!
