//! The event stream that the Codex proxy answers with, chunk by chunk.
//!
//! The stream is a sequence of lines. A chunk may end in the middle of a
//! line: what is left of it waits in a buffer for the next chunk.

use crate::json::{Json, JsonModel};
use crate::json_value::{option_model, parse_json, parsed_json};
use crate::provider::event::{
    outcomes_model, EventModel, OutcomeModel, ProxyError, StreamEvent,
};
use crate::provider::proxy_event::{at_most_one, json_event, parse_json_event};
use crate::text::{after_prefix, begins_with, characters, same_text, trim, trimmed};
use vstd::prelude::*;
use vstd::string::*;
use vstd::utf8::{decode_utf8, valid_utf8};

verus! {

/// A text cut into lines.
pub struct Lines {
    /// The lines that have come to their end, each with its line feed.
    pub complete: Seq<Seq<char>>,
    /// What follows the last line feed.
    pub pending: Seq<char>,
}

/// What a step of reading the stream yields, and what it leaves in the buffer.
pub struct Step {
    pub events: Seq<OutcomeModel>,
    pub pending: Seq<char>,
}

/// Cuts a text into lines.
pub open spec fn split_lines(text: Seq<char>) -> Lines
    decreases text.len(),
{
    if text.len() == 0 {
        Lines { complete: Seq::empty(), pending: Seq::empty() }
    } else {
        let front = split_lines(text.drop_last());
        let line = front.pending.push(text.last());
        if text.last() == '\n' {
            Lines { complete: front.complete.push(line), pending: Seq::empty() }
        } else {
            Lines { complete: front.complete, pending: line }
        }
    }
}

/// The data that a line carries. A blank line, a comment, the name of an event
/// and the end mark carry none.
pub open spec fn line_data(line: Seq<char>) -> Option<Seq<char>> {
    let content = trimmed(line);
    if content.len() == 0 || ":"@.is_prefix_of(content) || "event:"@.is_prefix_of(content) {
        None
    } else {
        let data = if "data:"@.is_prefix_of(content) {
            trimmed(content.skip("data:"@.len() as int))
        } else {
            content
        };
        if data.len() == 0 || data == "[DONE]"@ {
            None
        } else {
            Some(data)
        }
    }
}

/// The events that data stands for, given what it reads as: where it is not
/// JSON, it is text.
pub open spec fn data_outcomes(data: Seq<char>, parsed: Option<JsonModel>) -> Seq<OutcomeModel> {
    match parsed {
        Some(value) => at_most_one(json_event(value)),
        None => seq![Ok(EventModel::TextDelta(data))],
    }
}

/// The events that a line stands for.
pub open spec fn line_outcomes(line: Seq<char>) -> Seq<OutcomeModel> {
    match line_data(line) {
        Some(data) => data_outcomes(data, parsed_json(data)),
        None => Seq::empty(),
    }
}

/// The events that some lines stand for, one line after the other.
pub open spec fn lines_outcomes(lines: Seq<Seq<char>>) -> Seq<OutcomeModel>
    decreases lines.len(),
{
    if lines.len() == 0 {
        Seq::empty()
    } else {
        lines_outcomes(lines.drop_last()) + line_outcomes(lines.last())
    }
}

/// What reading `text` yields, where `buffer` was left over before.
pub open spec fn read_text(buffer: Seq<char>, text: Seq<char>) -> Step {
    let lines = split_lines(buffer + text);
    Step { events: lines_outcomes(lines.complete), pending: lines.pending }
}

/// What `String::from_utf8_lossy` makes of bytes that are not UTF-8.
pub uninterp spec fn repaired_text(bytes: Seq<u8>) -> Seq<char>;

/// The text of a chunk: its bytes as UTF-8, repaired where they are not.
pub open spec fn chunk_text(bytes: Seq<u8>) -> Seq<char> {
    if valid_utf8(bytes) {
        decode_utf8(bytes)
    } else {
        repaired_text(bytes)
    }
}

/// `String::from_utf8_lossy`: bytes that are UTF-8 are decoded as they are;
/// what becomes of others depends on the bytes alone.
#[verifier::external_body]
fn decode_lossy(bytes: &[u8]) -> (text: String)
    ensures
        text@ == (if valid_utf8(bytes@) { decode_utf8(bytes@) } else { repaired_text(bytes@) }),
{
    String::from_utf8_lossy(bytes).into_owned()
}

/// The data that a line carries, where it carries any.
pub fn data_of_line(line: &str) -> (data: Option<&str>)
    ensures
        data is Some <==> line_data(line@) is Some,
        data matches Some(data) ==> line_data(line@) == Some(data@),
{
    let content = trim(line);
    if content.is_empty() || begins_with(content, ":") || begins_with(content, "event:") {
        return None;
    }
    let data = match after_prefix(content, "data:") {
        Some(rest) => trim(rest),
        None => content,
    };
    if data.is_empty() || same_text(data, "[DONE]") {
        None
    } else {
        Some(data)
    }
}

/// The events that data stands for, given what it reads as.
pub fn events_of_data(data: &str, parsed: Option<Json>) -> (events: Vec<
    Result<StreamEvent, ProxyError>,
>)
    ensures
        outcomes_model(events@) == data_outcomes(data@, option_model(parsed)),
{
    match parsed {
        Some(value) => parse_json_event(&value),
        None => {
            let mut events: Vec<Result<StreamEvent, ProxyError>> = Vec::new();
            events.push(Ok(StreamEvent::TextDelta(data.to_owned())));
            assert(outcomes_model(events@) =~= seq![Ok(EventModel::TextDelta(data@))]);
            events
        },
    }
}

/// Reads `text`, after what is left over in the buffer, and leaves in the
/// buffer what has not come to the end of its line.
pub fn parse_sse_text(text: &str, line_buffer: &mut String) -> (events: Vec<
    Result<StreamEvent, ProxyError>,
>)
    ensures
        outcomes_model(events@) == read_text(old(line_buffer)@, text@).events,
        final(line_buffer)@ == read_text(old(line_buffer)@, text@).pending,
{
    let ghost before = line_buffer@;
    line_buffer.append(text);
    let input = characters(line_buffer.as_str());
    let ghost all = before + text@;

    let mut events: Vec<Result<StreamEvent, ProxyError>> = Vec::new();
    let mut line = String::new();
    assert(outcomes_model(events@) =~= Seq::empty());
    for i in 0..input.len()
        invariant
            input@ == all,
            line@ == split_lines(all.take(i as int)).pending,
            outcomes_model(events@) == lines_outcomes(split_lines(all.take(i as int)).complete),
    {
        proof {
            assert(all.take(i + 1).drop_last() =~= all.take(i as int));
            assert(all.take(i + 1).last() == all[i as int]);
        }
        let ghost complete = split_lines(all.take(i as int)).complete;
        line.push(input[i]);
        if input[i] == '\n' {
            let ghost ended = line@;
            if let Some(data) = data_of_line(line.as_str()) {
                let mut more = events_of_data(data, parse_json(data));
                let ghost (head, tail) = (events@, more@);
                events.append(&mut more);
                assert(outcomes_model(head + tail) =~= outcomes_model(head) + outcomes_model(tail));
            } else {
                assert(line_outcomes(ended) =~= Seq::empty());
                assert(outcomes_model(events@) + line_outcomes(ended) =~= outcomes_model(events@));
            }
            assert(complete.push(ended).drop_last() =~= complete);
            line = String::new();
        }
    }
    assert(all.take(all.len() as int) =~= all);
    *line_buffer = line;
    events
}

/// Reads one chunk of the stream. A chunk that could not be read yields the
/// error that came in its place, and leaves the buffer as it is.
pub fn parse_sse_chunk(
    chunk: Result<Vec<u8>, ProxyError>,
    line_buffer: &mut String,
) -> (events: Vec<Result<StreamEvent, ProxyError>>)
    ensures
        match chunk {
            Ok(bytes) => {
                &&& outcomes_model(events@) == read_text(
                    old(line_buffer)@,
                    chunk_text(bytes@),
                ).events
                &&& final(line_buffer)@ == read_text(
                    old(line_buffer)@,
                    chunk_text(bytes@),
                ).pending
            },
            Err(error) => {
                &&& outcomes_model(events@) == seq![Err::<EventModel, Seq<char>>(error@)]
                &&& final(line_buffer)@ == old(line_buffer)@
            },
        },
{
    match chunk {
        Ok(bytes) => {
            let text = decode_lossy(bytes.as_slice());
            parse_sse_text(text.as_str(), line_buffer)
        },
        Err(error) => {
            let mut events: Vec<Result<StreamEvent, ProxyError>> = Vec::new();
            events.push(Err(error));
            assert(outcomes_model(events@) =~= seq![Err::<EventModel, Seq<char>>(error@)]);
            events
        },
    }
}

} // verus!
