//! The JSON that the Codex proxy answers with.

use crate::json::{
    no_members, option_json, option_str, path_model, push_member, Json, JsonModel,
};
use crate::json_value::{option_model, parse_json, parsed_json};
use crate::provider::event::{
    outcomes_model, EventModel, OutcomeModel, ProxyError, StreamEvent, TokenUsage,
};
use crate::text::{first_of, same_text, text_or_empty};
use vstd::prelude::*;
use vstd::string::*;

verus! {

/// The type that an event gives itself; empty where it gives none.
pub open spec fn event_type(value: JsonModel) -> Seq<char> {
    text_or_empty(option_str(first_of(value.get("type"@), value.get("event"@))))
}

/// The types of an event that completes the answer.
pub open spec fn is_completion(kind: Seq<char>) -> bool {
    kind == "done"@ || kind == "complete"@ || kind == "completed"@ || kind == "response.completed"@
}

/// The types of an event that reports a failure.
pub open spec fn is_failure(kind: Seq<char>) -> bool {
    kind == "error"@ || kind == "response.failed"@
}

/// The types of an event that brings text.
pub open spec fn is_text(kind: Seq<char>) -> bool {
    kind == "response.output_text.delta"@ || kind == "text_delta"@ || kind == "delta"@ || kind
        == "message"@
}

/// The places where text may stand, in the order in which they are tried.
pub open spec fn text_paths() -> Seq<Seq<Seq<char>>> {
    seq![
        seq!["delta"@],
        seq!["text"@],
        seq!["content"@],
        seq!["message"@],
        seq!["response"@, "output_text"@],
        seq!["output"@, "0"@, "content"@, "0"@, "text"@],
        seq!["choices"@, "0"@, "delta"@, "content"@],
        seq!["choices"@, "0"@, "message"@, "content"@],
    ]
}

/// The string at the first of the paths that leads to one.
pub open spec fn first_string(value: JsonModel, paths: Seq<Seq<Seq<char>>>) -> Option<Seq<char>>
    decreases paths.len(),
{
    if paths.len() == 0 {
        None
    } else {
        first_of(
            option_str(value.pointer(paths.first())),
            first_string(value, paths.drop_first()),
        )
    }
}

/// The text that a value brings: the first string at one of the places where
/// text may stand, unless that string is empty.
pub open spec fn extracted_text(value: JsonModel) -> Option<Seq<char>> {
    match first_string(value, text_paths()) {
        Some(text) => if text.len() > 0 {
            Some(text)
        } else {
            None
        },
        None => None,
    }
}

/// A count of tokens, of which the low 32 bits are kept; zero where it is
/// missing or no whole number.
pub open spec fn token_count(count: Option<JsonModel>) -> u32 {
    match count {
        Some(count) => match count.as_u64() {
            Some(count) => (count % 0x1_0000_0000) as u32,
            None => 0,
        },
        None => 0,
    }
}

/// The usage that a value reports, where it reports one.
pub open spec fn reported_usage(value: JsonModel) -> Option<TokenUsage> {
    match first_of(value.get("usage"@), value.pointer(seq!["response"@, "usage"@])) {
        Some(usage) => Some(
            TokenUsage {
                input: token_count(
                    first_of(usage.get("input_tokens"@), usage.get("prompt_tokens"@)),
                ),
                output: token_count(
                    first_of(usage.get("output_tokens"@), usage.get("completion_tokens"@)),
                ),
            },
        ),
        None => None,
    }
}

/// What an event that reports a failure says.
pub open spec fn failure_message(value: JsonModel) -> Seq<char> {
    match option_str(first_of(value.pointer(seq!["error"@, "message"@]), value.get("message"@))) {
        Some(message) => message,
        None => "Codex proxy stream error"@,
    }
}

/// The input of a tool whose arguments came as a text, given what the text
/// reads as: where it reads as nothing, the text itself, as the member `raw`.
pub open spec fn input_or_raw(text: Seq<char>, parsed: Option<JsonModel>) -> JsonModel {
    match parsed {
        Some(input) => input,
        None => JsonModel::Object(no_members().insert("raw"@, JsonModel::Str(text))),
    }
}

/// The input of a tool with these arguments: no arguments stand for the empty
/// object, a text for what it reads as.
pub open spec fn tool_input(arguments: Option<JsonModel>) -> JsonModel {
    match arguments {
        Some(JsonModel::Str(text)) => input_or_raw(text, parsed_json(text)),
        Some(input) => input,
        None => JsonModel::Object(no_members()),
    }
}

/// The part of a value that describes a tool call: its member `item`, or else
/// the value itself.
pub open spec fn tool_item(value: JsonModel) -> JsonModel {
    match value.get("item"@) {
        Some(item) => item,
        None => value,
    }
}

/// The tool call that a value describes, where it describes one.
pub open spec fn tool_call(value: JsonModel) -> Option<EventModel> {
    let item = tool_item(value);
    let kind = text_or_empty(option_str(item.get("type"@)));
    if kind != "function_call"@ && kind != "tool_call"@ {
        None
    } else {
        match option_str(item.get("name"@)) {
            Some(name) => Some(
                EventModel::ToolCall {
                    id: match option_str(first_of(item.get("call_id"@), item.get("id"@))) {
                        Some(id) => id,
                        None => "call_codex"@,
                    },
                    name,
                    input: tool_input(first_of(item.get("arguments"@), item.get("input"@))),
                },
            ),
            None => None,
        }
    }
}

/// The event that a JSON event of the proxy stands for, where it stands for one.
pub open spec fn json_event(value: JsonModel) -> Option<EventModel> {
    let kind = event_type(value);
    if is_completion(kind) {
        Some(EventModel::Done { usage: reported_usage(value) })
    } else if is_failure(kind) {
        Some(EventModel::Error(failure_message(value)))
    } else if is_text(kind) && extracted_text(value) is Some {
        Some(EventModel::TextDelta(extracted_text(value)->0))
    } else {
        match tool_call(value) {
            Some(call) => Some(call),
            None => match extracted_text(value) {
                Some(text) => Some(EventModel::TextDelta(text)),
                None => None,
            },
        }
    }
}

/// No event, or one.
pub open spec fn at_most_one(event: Option<EventModel>) -> Seq<OutcomeModel> {
    match event {
        Some(event) => seq![Ok(event)],
        None => Seq::empty(),
    }
}

/// The events that an answer in one piece stands for: its text, where it
/// brings some, and the completion.
pub open spec fn response_events(value: JsonModel) -> Seq<OutcomeModel> {
    let done: Seq<OutcomeModel> = seq![Ok(EventModel::Done { usage: reported_usage(value) })];
    match extracted_text(value) {
        Some(text) => seq![Ok::<EventModel, Seq<char>>(EventModel::TextDelta(text))] + done,
        None => done,
    }
}

/// The tokens of paths as text.
pub open spec fn paths_model(paths: Seq<Vec<&str>>) -> Seq<Seq<Seq<char>>> {
    paths.map_values(|path: Vec<&str>| path_model(path@))
}

/// The places where text may stand, in the order in which they are tried.
fn paths_to_text() -> (paths: Vec<Vec<&'static str>>)
    ensures
        paths_model(paths@) == text_paths(),
{
    let paths = vec![
        vec!["delta"],
        vec!["text"],
        vec!["content"],
        vec!["message"],
        vec!["response", "output_text"],
        vec!["output", "0", "content", "0", "text"],
        vec!["choices", "0", "delta", "content"],
        vec!["choices", "0", "message", "content"],
    ];
    proof {
        let tokens = text_paths();
        assert(path_model(paths@[0]@) =~= tokens[0]);
        assert(path_model(paths@[1]@) =~= tokens[1]);
        assert(path_model(paths@[2]@) =~= tokens[2]);
        assert(path_model(paths@[3]@) =~= tokens[3]);
        assert(path_model(paths@[4]@) =~= tokens[4]);
        assert(path_model(paths@[5]@) =~= tokens[5]);
        assert(path_model(paths@[6]@) =~= tokens[6]);
        assert(path_model(paths@[7]@) =~= tokens[7]);
        assert(paths_model(paths@) =~= tokens);
    }
    paths
}

/// The first of two values that is not missing.
fn either<'a>(first: Option<&'a Json>, second: Option<&'a Json>) -> (found: Option<&'a Json>)
    ensures
        option_json(found) == first_of(option_json(first), option_json(second)),
{
    match first {
        Some(value) => Some(value),
        None => second,
    }
}

/// The text of a value that may be missing, where it is a string.
fn text_of<'a>(value: Option<&'a Json>) -> (text: Option<&'a str>)
    ensures
        text is Some <==> option_str(option_json(value)) is Some,
        text matches Some(text) ==> option_str(option_json(value)) == Some(text@),
{
    match value {
        Some(value) => value.as_str(),
        None => None,
    }
}

/// The text that a value brings: the first string at one of the places where
/// text may stand, unless that string is empty.
pub fn extract_text(value: &Json) -> (text: Option<String>)
    ensures
        text is Some <==> extracted_text(value@) is Some,
        text matches Some(text) ==> extracted_text(value@) == Some(text@),
{
    let paths = paths_to_text();
    let ghost tokens = text_paths();
    assert(tokens.skip(0) =~= tokens);
    for i in 0..paths.len()
        invariant
            paths_model(paths@) == tokens,
            tokens == text_paths(),
            first_string(value@, tokens.skip(i as int)) == first_string(value@, tokens),
    {
        proof {
            assert(tokens[i as int] == path_model(paths@[i as int]@));
            assert(tokens.skip(i as int).first() == tokens[i as int]);
            assert(tokens.skip(i as int).drop_first() =~= tokens.skip(i + 1));
        }
        if let Some(text) = text_of(value.pointer(paths[i].as_slice())) {
            return if text.is_empty() {
                None
            } else {
                Some(text.to_owned())
            };
        }
    }
    None
}

/// A count of tokens, of which the low 32 bits are kept; zero where it is
/// missing or no whole number.
fn count_tokens(count: Option<&Json>) -> (tokens: u32)
    ensures
        tokens == token_count(option_json(count)),
{
    if let Some(count) = count {
        if let Some(count) = count.as_u64() {
            assert(count as u32 == (count % 0x1_0000_0000) as u32) by (bit_vector);
            return #[verifier::truncate] (count as u32);
        }
    }
    0
}

/// The usage that a value reports, where it reports one.
pub fn usage_from_value(value: &Json) -> (usage: Option<TokenUsage>)
    ensures
        usage == reported_usage(value@),
{
    assert(path_model(["response", "usage"]@) =~= seq!["response"@, "usage"@]);
    match either(value.get("usage"), value.pointer(&["response", "usage"])) {
        Some(usage) => Some(
            TokenUsage {
                input: count_tokens(
                    either(usage.get("input_tokens"), usage.get("prompt_tokens")),
                ),
                output: count_tokens(
                    either(usage.get("output_tokens"), usage.get("completion_tokens")),
                ),
            },
        ),
        None => None,
    }
}

/// The input of a tool whose arguments came as the text `text`, given what
/// the text reads as.
pub fn parsed_or_raw(text: &str, parsed: Option<Json>) -> (input: Json)
    ensures
        input@ == input_or_raw(text@, option_model(parsed)),
{
    match parsed {
        Some(input) => input,
        None => {
            let mut members: Vec<(String, Json)> = Vec::new();
            push_member(&mut members, "raw", Json::text(text));
            Json::Object(members)
        },
    }
}

/// The tool call that a value describes, where it describes one.
pub fn parse_tool_call(value: &Json) -> (call: Option<StreamEvent>)
    ensures
        call is Some <==> tool_call(value@) is Some,
        call matches Some(call) ==> tool_call(value@) == Some(call@),
{
    let item = match value.get("item") {
        Some(item) => item,
        None => value,
    };
    let kind = match text_of(item.get("type")) {
        Some(kind) => kind,
        None => "",
    };
    proof {
        reveal_strlit("");
        assert(""@ =~= Seq::empty());
    }
    if !same_text(kind, "function_call") && !same_text(kind, "tool_call") {
        return None;
    }
    let name = match text_of(item.get("name")) {
        Some(name) => name.to_owned(),
        None => {
            return None;
        },
    };
    let id = match text_of(either(item.get("call_id"), item.get("id"))) {
        Some(id) => id.to_owned(),
        None => "call_codex".to_owned(),
    };
    let input = match either(item.get("arguments"), item.get("input")) {
        Some(arguments) => match arguments.as_str() {
            Some(text) => parsed_or_raw(text, parse_json(text)),
            None => arguments.copy(),
        },
        None => {
            let members: Vec<(String, Json)> = Vec::new();
            Json::Object(members)
        },
    };
    Some(StreamEvent::ToolCall { id, name, input })
}

/// The events that a JSON event of the proxy stands for: at most one.
pub fn parse_json_event(value: &Json) -> (events: Vec<Result<StreamEvent, ProxyError>>)
    ensures
        outcomes_model(events@) == at_most_one(json_event(value@)),
{
    let kind = match text_of(either(value.get("type"), value.get("event"))) {
        Some(kind) => kind,
        None => "",
    };
    proof {
        reveal_strlit("");
        assert(""@ =~= Seq::empty());
    }
    let event = if same_text(kind, "done") || same_text(kind, "complete") || same_text(
        kind,
        "completed",
    ) || same_text(kind, "response.completed") {
        Some(StreamEvent::Done { usage: usage_from_value(value) })
    } else if same_text(kind, "error") || same_text(kind, "response.failed") {
        assert(path_model(["error", "message"]@) =~= seq!["error"@, "message"@]);
        let message = match text_of(
            either(value.pointer(&["error", "message"]), value.get("message")),
        ) {
            Some(message) => message,
            None => "Codex proxy stream error",
        };
        Some(StreamEvent::Error(message.to_owned()))
    } else {
        let text = extract_text(value);
        let brings_text = same_text(kind, "response.output_text.delta") || same_text(
            kind,
            "text_delta",
        ) || same_text(kind, "delta") || same_text(kind, "message");
        if brings_text && text.is_some() {
            match text {
                Some(text) => Some(StreamEvent::TextDelta(text)),
                None => None,
            }
        } else {
            match parse_tool_call(value) {
                Some(call) => Some(call),
                None => match text {
                    Some(text) => Some(StreamEvent::TextDelta(text)),
                    None => None,
                },
            }
        }
    };
    let mut events: Vec<Result<StreamEvent, ProxyError>> = Vec::new();
    if let Some(event) = event {
        events.push(Ok(event));
    }
    assert(outcomes_model(events@) =~= at_most_one(json_event(value@)));
    events
}

/// The events that an answer in one piece stands for.
pub fn parse_json_response(value: &Json) -> (events: Vec<Result<StreamEvent, ProxyError>>)
    ensures
        outcomes_model(events@) == response_events(value@),
{
    let mut events: Vec<Result<StreamEvent, ProxyError>> = Vec::new();
    if let Some(text) = extract_text(value) {
        events.push(Ok(StreamEvent::TextDelta(text)));
    }
    events.push(Ok(StreamEvent::Done { usage: usage_from_value(value) }));
    assert(outcomes_model(events@) =~= response_events(value@));
    events
}

} // verus!
