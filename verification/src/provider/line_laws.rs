//! What holds of every line of an event stream, told from its text alone.

use crate::json::JsonModel;
use crate::json_value::parsed_json;
use crate::provider::event::EventModel;
use crate::provider::event_laws::{
    announces_text, brings_text, completes, describes_call, fails, first_text_is,
    law_calls_are_delivered, law_completions_are_done, law_other_values_are_silent,
    law_text_is_delivered_as_it_stands,
};
use crate::provider::proxy_event::{json_event, reported_usage, tool_call};
use crate::provider::sse::{
    chunk_text, line_data, line_outcomes, lines_outcomes, read_text, split_lines, Step,
};
use crate::provider::sse_laws::{is_line, law_text_may_be_cut_anywhere, lemma_within_line};
use crate::text_laws::{all_white, bare, law_trimming_takes_off_what_is_around};
use vstd::prelude::*;
use vstd::utf8::encode_utf8;

verus! {

/// Whether the text can be the data of a line: it is not empty, has no white
/// space around it, and is not the end mark.
pub open spec fn is_data(data: Seq<char>) -> bool {
    &&& data.len() > 0
    &&& bare(data)
    &&& data != "[DONE]"@
}

/// Whether the text begins with that piece.
pub open spec fn begins(text: Seq<char>, piece: Seq<char>) -> bool {
    exists|rest: Seq<char>| text == #[trigger] (piece + rest)
}

/// What a prefix is.
pub proof fn lemma_begins(text: Seq<char>, piece: Seq<char>)
    ensures
        begins(text, piece) <==> piece.is_prefix_of(text),
{
    if begins(text, piece) {
        let rest = choose|rest: Seq<char>| text == #[trigger] (piece + rest);
        assert(text.subrange(0, piece.len() as int) =~= piece);
    }
    if piece.is_prefix_of(text) {
        assert(text =~= piece + text.skip(piece.len() as int));
    }
}

/// The pieces that a line may begin with.
proof fn lemma_marks()
    ensures
        ":"@ == seq![':'],
        "event:"@ == seq!['e', 'v', 'e', 'n', 't', ':'],
        "data:"@ == seq!['d', 'a', 't', 'a', ':'],
        "[DONE]"@ == seq!['[', 'D', 'O', 'N', 'E', ']'],
{
    reveal_strlit(":");
    reveal_strlit("event:");
    reveal_strlit("data:");
    reveal_strlit("[DONE]");
    assert(":"@ =~= seq![':']);
    assert("event:"@ =~= seq!['e', 'v', 'e', 'n', 't', ':']);
    assert("data:"@ =~= seq!['d', 'a', 't', 'a', ':']);
    assert("[DONE]"@ =~= seq!['[', 'D', 'O', 'N', 'E', ']']);
}

/// A line whose content stands behind `data:` carries that content, whatever
/// white space is around it.
pub proof fn law_marked_lines_carry_their_data(
    before: Seq<char>,
    between: Seq<char>,
    data: Seq<char>,
    after: Seq<char>,
)
    requires
        all_white(before),
        all_white(between),
        all_white(after),
        is_data(data),
    ensures
        line_data(before + ("data:"@ + between + data) + after) == Some(data),
{
    lemma_marks();
    let content = "data:"@ + between + data;
    assert(content.first() == 'd');
    assert(content.last() == data.last());
    law_trimming_takes_off_what_is_around(before, content, after);
    assert(content.subrange(0, 5) =~= "data:"@);
    assert("data:"@.is_prefix_of(content));
    if ":"@.is_prefix_of(content) {
        assert(content.subrange(0, 1)[0] == ':');
    }
    if "event:"@.is_prefix_of(content) {
        assert(content.subrange(0, 6)[0] == 'e');
    }
    assert(content.skip(5) =~= between + data + Seq::<char>::empty());
    law_trimming_takes_off_what_is_around(between, data, Seq::empty());
}

/// A line that is not marked in any way is data as it stands.
pub proof fn law_plain_lines_are_data(before: Seq<char>, data: Seq<char>, after: Seq<char>)
    requires
        all_white(before),
        all_white(after),
        is_data(data),
        !begins(data, ":"@),
        !begins(data, "event:"@),
        !begins(data, "data:"@),
    ensures
        line_data(before + data + after) == Some(data),
{
    law_trimming_takes_off_what_is_around(before, data, after);
    lemma_begins(data, ":"@);
    lemma_begins(data, "event:"@);
    lemma_begins(data, "data:"@);
}

/// A blank line, a comment, the name of an event, the end mark, and `data:` with
/// nothing behind it carry no data, whatever white space is around them.
pub proof fn law_some_lines_carry_nothing(
    before: Seq<char>,
    rest: Seq<char>,
    between: Seq<char>,
    after: Seq<char>,
)
    requires
        all_white(before),
        all_white(between),
        all_white(after),
        bare(":"@ + rest),
        bare("event:"@ + rest),
    ensures
        line_data(before) is None,
        line_data(before + (":"@ + rest) + after) is None,
        line_data(before + ("event:"@ + rest) + after) is None,
        line_data(before + "[DONE]"@ + after) is None,
        line_data(before + ("data:"@ + between + "[DONE]"@) + after) is None,
        line_data(before + "data:"@ + after) is None,
{
    lemma_marks();
    law_trimming_takes_off_what_is_around(before, Seq::empty(), Seq::empty());
    assert(before + Seq::<char>::empty() + Seq::<char>::empty() =~= before);
    law_trimming_takes_off_what_is_around(before, ":"@ + rest, after);
    lemma_begins(":"@ + rest, ":"@);
    law_trimming_takes_off_what_is_around(before, "event:"@ + rest, after);
    lemma_begins("event:"@ + rest, "event:"@);

    law_trimming_takes_off_what_is_around(before, "[DONE]"@, after);
    if "data:"@.is_prefix_of("[DONE]"@) {
        assert("[DONE]"@.subrange(0, 5)[0] == 'd');
    }

    let marked = "data:"@ + between + "[DONE]"@;
    law_trimming_takes_off_what_is_around(before, marked, after);
    assert(marked.subrange(0, 5) =~= "data:"@);
    assert(marked.skip(5) =~= between + "[DONE]"@ + Seq::<char>::empty());
    law_trimming_takes_off_what_is_around(between, "[DONE]"@, Seq::empty());

    law_trimming_takes_off_what_is_around(before, "data:"@, after);
    assert("data:"@.subrange(0, 5) =~= "data:"@);
    assert("data:"@.skip(5) =~= Seq::<char>::empty() + Seq::<char>::empty() + Seq::<char>::empty());
    law_trimming_takes_off_what_is_around(Seq::empty(), Seq::empty(), Seq::empty());
}

/// A line yields just what its data stands for: the one event of a JSON value,
/// be it text, a tool call, a completion or a failure, nothing for a value that
/// stands for none, and the data as text where it is not JSON. A line without
/// data yields nothing.
pub proof fn law_a_line_yields_what_its_data_stands_for(line: Seq<char>)
    ensures
        line_data(line) is None ==> line_outcomes(line).len() == 0,
        line_data(line) matches Some(data) ==> match parsed_json(data) {
            Some(value) => match json_event(value) {
                Some(event) => line_outcomes(line) == seq![Ok::<EventModel, Seq<char>>(event)],
                None => line_outcomes(line).len() == 0,
            },
            None => line_outcomes(line) == seq![Ok::<EventModel, Seq<char>>(
                EventModel::TextDelta(data),
            )],
        },
{
}

/// A line that carries a tool call yields that tool call.
pub proof fn law_a_line_yields_its_tool_call(line: Seq<char>, data: Seq<char>, value: JsonModel)
    requires
        line_data(line) == Some(data),
        parsed_json(data) == Some(value),
        describes_call(value),
        !completes(value),
        !fails(value),
        !(announces_text(value) && brings_text(value)),
    ensures
        tool_call(value) is Some,
        line_outcomes(line) == seq![Ok::<EventModel, Seq<char>>(tool_call(value)->0)],
{
    law_calls_are_delivered(value);
}

/// A line that carries text yields that text, character by character; one that
/// carries a completion yields the completion; one that carries nothing of the
/// kind yields nothing.
pub proof fn law_a_line_yields_its_text_or_completion(
    line: Seq<char>,
    data: Seq<char>,
    value: JsonModel,
    text: Seq<char>,
)
    requires
        line_data(line) == Some(data),
        parsed_json(data) == Some(value),
    ensures
        completes(value) ==> line_outcomes(line) == seq![Ok::<EventModel, Seq<char>>(
            EventModel::Done { usage: reported_usage(value) },
        )],
        !completes(value) && !fails(value) && (announces_text(value) || !describes_call(value))
            && first_text_is(value, text) && text.len() > 0 ==> line_outcomes(line) == seq![Ok::<
            EventModel,
            Seq<char>,
        >(EventModel::TextDelta(text))],
        !completes(value) && !fails(value) && !brings_text(value) && !describes_call(value)
            ==> line_outcomes(line).len() == 0,
{
    law_completions_are_done(value);
    if !completes(value) && !fails(value) && (announces_text(value) || !describes_call(value))
        && first_text_is(value, text) && text.len() > 0 {
        law_text_is_delivered_as_it_stands(value, text);
    }
    if !completes(value) && !fails(value) && !brings_text(value) && !describes_call(value) {
        law_other_values_are_silent(value);
    }
}

/// Reading what completes one line yields what the line yields, and leaves
/// nothing in the buffer.
pub proof fn law_one_line_is_read(buffer: Seq<char>, text: Seq<char>)
    requires
        is_line(buffer + text),
    ensures
        read_text(buffer, text) == (Step {
            events: line_outcomes(buffer + text),
            pending: Seq::empty(),
        }),
{
    let line = buffer + text;
    let front = line.drop_last();
    assert(front.push('\n') =~= line);
    let lines = split_lines(line);
    lemma_within_line(front);
    assert(lines.complete =~= seq![line]);
    assert(seq![line].drop_last() =~= Seq::<Seq<char>>::empty());
    assert(lines_outcomes(Seq::<Seq<char>>::empty()) =~= Seq::empty());
    assert(lines_outcomes(seq![line]) =~= line_outcomes(line));
}

/// Reading a line and more text yields what the line yields, and then what the
/// rest yields.
pub proof fn law_lines_are_read_in_order(buffer: Seq<char>, text: Seq<char>, rest: Seq<char>)
    requires
        is_line(buffer + text),
    ensures
        read_text(buffer, text + rest).events == line_outcomes(buffer + text) + read_text(
            Seq::empty(),
            rest,
        ).events,
        read_text(buffer, text + rest).pending == read_text(Seq::empty(), rest).pending,
{
    law_one_line_is_read(buffer, text);
    law_text_may_be_cut_anywhere(buffer, text, rest);
}

/// The text of a chunk is the text that its bytes encode.
pub proof fn law_a_chunk_is_the_text_that_it_encodes(text: Seq<char>)
    ensures
        chunk_text(encode_utf8(text)) == text,
{
    vstd::utf8::encode_utf8_valid_utf8(text);
    vstd::utf8::encode_utf8_decode_utf8(text);
}

} // verus!
