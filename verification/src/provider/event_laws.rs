//! What holds of every JSON value that the Codex proxy answers with, told from
//! the members of the value alone.

use crate::json::{member, option_str, JsonModel, Members};
use crate::json_laws::{law_indices_are_decimal, law_names_are_no_indices};
use crate::json_value::parsed_json;
use crate::provider::event::{EventModel, OutcomeModel, TokenUsage};
use crate::provider::proxy_event::{
    event_type, extracted_text, first_string, is_completion, is_failure, is_text, json_event,
    reported_usage, response_events, text_paths, tool_call,
};
use crate::provider::proxy_laws::lemma_first_string;
use vstd::prelude::*;

verus! {

/// Whether the value gives `kind` as its type: under `type`, or under `event`
/// where there is no member `type`.
pub open spec fn of_type(value: JsonModel, kind: Seq<char>) -> bool {
    ||| value.get("type"@) == Some(JsonModel::Str(kind))
    ||| value.get("type"@) is None && value.get("event"@) == Some(JsonModel::Str(kind))
}

/// Whether the value says that the answer is complete.
pub open spec fn completes(value: JsonModel) -> bool {
    ||| of_type(value, "done"@)
    ||| of_type(value, "complete"@)
    ||| of_type(value, "completed"@)
    ||| of_type(value, "response.completed"@)
}

/// Whether the value says that the answer broke off.
pub open spec fn fails(value: JsonModel) -> bool {
    ||| of_type(value, "error"@)
    ||| of_type(value, "response.failed"@)
}

/// Whether the value says that it brings text.
pub open spec fn announces_text(value: JsonModel) -> bool {
    ||| of_type(value, "response.output_text.delta"@)
    ||| of_type(value, "text_delta"@)
    ||| of_type(value, "delta"@)
    ||| of_type(value, "message"@)
}

/// What a value that may be missing has under a name.
pub open spec fn below(value: Option<JsonModel>, name: Seq<char>) -> Option<JsonModel> {
    match value {
        Some(value) => value.get(name),
        None => None,
    }
}

/// The first item of an array that may be missing; of an object, its member `0`.
pub open spec fn zeroth(value: Option<JsonModel>) -> Option<JsonModel> {
    match value {
        Some(JsonModel::Array(items)) => if items.len() > 0 {
            Some(items[0])
        } else {
            None
        },
        Some(JsonModel::Object(members)) => member(members, "0"@),
        _ => None,
    }
}

/// What stands at the places for text, in their order.
pub open spec fn places(value: JsonModel) -> Seq<Option<JsonModel>> {
    let choice = zeroth(value.get("choices"@));
    seq![
        value.get("delta"@),
        value.get("text"@),
        value.get("content"@),
        value.get("message"@),
        below(value.get("response"@), "output_text"@),
        below(zeroth(below(zeroth(value.get("output"@)), "content"@)), "text"@),
        below(below(choice, "delta"@), "content"@),
        below(below(choice, "message"@), "content"@),
    ]
}

/// Whether a value that may be missing is a string.
pub open spec fn is_string(value: Option<JsonModel>) -> bool {
    match value {
        Some(JsonModel::Str(text)) => true,
        _ => false,
    }
}

/// Whether `text` is the string at the first place that holds one.
pub open spec fn first_text_is(value: JsonModel, text: Seq<char>) -> bool {
    exists|at: int|
        0 <= at < places(value).len() && #[trigger] places(value)[at] == Some(JsonModel::Str(text))
            && forall|i: int| 0 <= i < at ==> !is_string(#[trigger] places(value)[i])
}

/// Whether some place holds a string that is not empty, and none before it holds
/// a string.
pub open spec fn brings_text(value: JsonModel) -> bool {
    exists|text: Seq<char>| text.len() > 0 && #[trigger] first_text_is(value, text)
}

/// The literals in the names of types are all different, so that a value has
/// just one type.
proof fn lemma_types_differ()
    ensures
        "done"@.len() == 4,
        "complete"@.len() == 8,
        "completed"@.len() == 9,
        "response.completed"@.len() == 18,
        "error"@.len() == 5,
        "response.failed"@.len() == 15,
        "response.output_text.delta"@.len() == 26,
        "text_delta"@.len() == 10,
        "delta"@.len() == 5,
        "message"@.len() == 7,
        "error"@ != "delta"@,
{
    reveal_strlit("done");
    reveal_strlit("complete");
    reveal_strlit("completed");
    reveal_strlit("response.completed");
    reveal_strlit("error");
    reveal_strlit("response.failed");
    reveal_strlit("response.output_text.delta");
    reveal_strlit("text_delta");
    reveal_strlit("delta");
    reveal_strlit("message");
    assert("error"@[0] != "delta"@[0]);
}

/// A step by a name that is no index is the member of that name.
proof fn lemma_step(value: JsonModel, name: Seq<char>)
    requires
        name.len() > 0,
        !('0' <= name[0] <= '9'),
    ensures
        value.child(name) == value.get(name),
{
    law_names_are_no_indices(name);
}

/// A step by `0` is the first item of an array, or the member `0` of an object.
proof fn lemma_zeroth(value: JsonModel)
    ensures
        value.child("0"@) == zeroth(Some(value)),
{
    reveal_strlit("0");
    assert("0"@ =~= seq!['0']);
    law_indices_are_decimal(Seq::empty(), '0');
}

/// A path of one name, and one of two.
proof fn lemma_short_paths(value: JsonModel, first: Seq<char>, second: Seq<char>)
    requires
        first.len() > 0,
        !('0' <= first[0] <= '9'),
        second.len() > 0,
        !('0' <= second[0] <= '9'),
    ensures
        value.pointer(seq![first]) == value.get(first),
        value.pointer(seq![first, second]) == below(value.get(first), second),
{
    reveal_with_fuel(JsonModel::pointer, 3);
    lemma_step(value, first);
    assert(seq![first].drop_first() =~= Seq::<Seq<char>>::empty());
    assert(seq![first, second].drop_first() =~= seq![second]);
    assert(seq![second].drop_first() =~= Seq::<Seq<char>>::empty());
    if let Some(inner) = value.get(first) {
        lemma_step(inner, second);
    }
}

/// The longer paths to text.
proof fn lemma_long_paths(value: JsonModel)
    ensures
        value.pointer(seq!["output"@, "0"@, "content"@, "0"@, "text"@]) == places(value)[5],
        value.pointer(seq!["choices"@, "0"@, "delta"@, "content"@]) == places(value)[6],
        value.pointer(seq!["choices"@, "0"@, "message"@, "content"@]) == places(value)[7],
{
    reveal_strlit("output");
    reveal_strlit("content");
    reveal_strlit("text");
    reveal_strlit("choices");
    reveal_strlit("delta");
    reveal_strlit("message");
    lemma_step(value, "output"@);
    lemma_step(value, "choices"@);
    let output = seq!["output"@, "0"@, "content"@, "0"@, "text"@];
    let output1 = seq!["0"@, "content"@, "0"@, "text"@];
    let output2 = seq!["content"@, "0"@, "text"@];
    let output3 = seq!["0"@, "text"@];
    assert(output.drop_first() =~= output1);
    assert(output1.drop_first() =~= output2);
    assert(output2.drop_first() =~= output3);
    assert(output3.drop_first() =~= seq!["text"@]);
    if let Some(list) = value.get("output"@) {
        lemma_zeroth(list);
        if let Some(item) = zeroth(Some(list)) {
            lemma_step(item, "content"@);
            if let Some(inner) = item.get("content"@) {
                lemma_zeroth(inner);
                if let Some(part) = zeroth(Some(inner)) {
                    lemma_short_paths(part, "text"@, "text"@);
                    assert(inner.pointer(output3) == part.get("text"@));
                }
                assert(inner.pointer(output3) == below(zeroth(Some(inner)), "text"@));
            }
            assert(item.pointer(output2) == below(zeroth(item.get("content"@)), "text"@));
        }
        assert(list.pointer(output1) == places(value)[5]);
    }
    let delta1 = seq!["0"@, "delta"@, "content"@];
    let message1 = seq!["0"@, "message"@, "content"@];
    assert(seq!["choices"@, "0"@, "delta"@, "content"@].drop_first() =~= delta1);
    assert(seq!["choices"@, "0"@, "message"@, "content"@].drop_first() =~= message1);
    assert(delta1.drop_first() =~= seq!["delta"@, "content"@]);
    assert(message1.drop_first() =~= seq!["message"@, "content"@]);
    if let Some(list) = value.get("choices"@) {
        lemma_zeroth(list);
        if let Some(choice) = zeroth(Some(list)) {
            lemma_short_paths(choice, "delta"@, "content"@);
            lemma_short_paths(choice, "message"@, "content"@);
        }
        assert(list.pointer(delta1) == places(value)[6]);
        assert(list.pointer(message1) == places(value)[7]);
    }
}

/// The paths lead to the places.
proof fn lemma_places(value: JsonModel, i: int)
    requires
        0 <= i < 8,
    ensures
        text_paths().len() == 8,
        value.pointer(text_paths()[i]) == places(value)[i],
{
    reveal_strlit("delta");
    reveal_strlit("text");
    reveal_strlit("content");
    reveal_strlit("message");
    reveal_strlit("response");
    reveal_strlit("output_text");
    lemma_short_paths(value, "delta"@, "text"@);
    lemma_short_paths(value, "text"@, "text"@);
    lemma_short_paths(value, "content"@, "text"@);
    lemma_short_paths(value, "message"@, "text"@);
    lemma_short_paths(value, "response"@, "output_text"@);
    lemma_long_paths(value);
    assert(text_paths()[0] == seq!["delta"@]);
    assert(text_paths()[1] == seq!["text"@]);
    assert(text_paths()[2] == seq!["content"@]);
    assert(text_paths()[3] == seq!["message"@]);
    assert(text_paths()[4] == seq!["response"@, "output_text"@]);
}

/// The text of a value is the string at the first place that holds one, just as
/// it stands there; an empty string is no text, and there is none where no place
/// holds a string.
pub proof fn law_text_is_taken_as_it_stands(value: JsonModel, text: Seq<char>)
    ensures
        first_text_is(value, text) && text.len() > 0 ==> extracted_text(value) == Some(text),
        first_text_is(value, text) && text.len() == 0 ==> extracted_text(value) is None,
        (forall|i: int| 0 <= i < places(value).len() ==> !is_string(#[trigger] places(value)[i]))
            ==> extracted_text(value) is None,
        extracted_text(value) is Some <==> brings_text(value),
{
    assert forall|i: int| 0 <= i < 8 implies option_str(
        value.pointer(#[trigger] text_paths()[i]),
    ) == option_str(places(value)[i]) by {
        lemma_places(value, i);
    }
    lemma_places(value, 0);
    if forall|i: int| 0 <= i < 8 ==> !is_string(#[trigger] places(value)[i]) {
        assert forall|i: int| 0 <= i < 8 implies option_str(
            value.pointer(#[trigger] text_paths()[i]),
        ) is None by {
            assert(!is_string(places(value)[i]));
        }
        lemma_first_string(value, text_paths(), 8);
        assert(!brings_text(value)) by {
            if brings_text(value) {
                let other = choose|other: Seq<char>|
                    other.len() > 0 && #[trigger] first_text_is(value, other);
                let at = choose|at: int|
                    0 <= at < places(value).len() && #[trigger] places(value)[at] == Some(
                        JsonModel::Str(other),
                    );
                assert(is_string(places(value)[at]));
            }
        }
    } else {
        let some = choose|i: int| 0 <= i < 8 && is_string(#[trigger] places(value)[i]);
        let at = lemma_least(value, some);
        let found = option_str(places(value)[at])->0;
        assert forall|i: int| 0 <= i < at implies option_str(
            value.pointer(#[trigger] text_paths()[i]),
        ) is None by {
            assert(!is_string(places(value)[i]));
        }
        lemma_first_string(value, text_paths(), at);
        assert(first_string(value, text_paths()) == Some(found));
        assert(first_text_is(value, found)) by {
            assert(places(value)[at] == Some(JsonModel::Str(found)));
        }
        assert forall|other: Seq<char>| #[trigger] first_text_is(value, other) implies other
            == found by {
            let there = choose|there: int|
                0 <= there < places(value).len() && #[trigger] places(value)[there] == Some(
                    JsonModel::Str(other),
                ) && forall|i: int| 0 <= i < there ==> !is_string(#[trigger] places(value)[i]);
            if there < at {
                assert(!is_string(places(value)[there]));
            }
            if at < there {
                assert(!is_string(places(value)[at]));
            }
        }
    }
}

/// The first place that holds a string, where one does.
proof fn lemma_least(value: JsonModel, some: int) -> (at: int)
    requires
        0 <= some < 8,
        is_string(places(value)[some]),
    ensures
        0 <= at <= some,
        is_string(places(value)[at]),
        forall|i: int| 0 <= i < at ==> !is_string(#[trigger] places(value)[i]),
    decreases some,
{
    if exists|i: int| 0 <= i < some && is_string(#[trigger] places(value)[i]) {
        let less = choose|i: int| 0 <= i < some && is_string(#[trigger] places(value)[i]);
        lemma_least(value, less)
    } else {
        some
    }
}

/// The type of a value that gives itself one.
proof fn lemma_type(value: JsonModel, kind: Seq<char>)
    ensures
        of_type(value, kind) ==> event_type(value) == kind,
        kind.len() > 0 && event_type(value) == kind ==> of_type(value, kind),
{
}

/// The types that are told apart are those that the value may give.
proof fn lemma_all_types(value: JsonModel)
    ensures
        completes(value) <==> is_completion(event_type(value)),
        fails(value) <==> is_failure(event_type(value)),
        announces_text(value) <==> is_text(event_type(value)),
{
    lemma_types_differ();
    lemma_type(value, "done"@);
    lemma_type(value, "complete"@);
    lemma_type(value, "completed"@);
    lemma_type(value, "response.completed"@);
    lemma_type(value, "error"@);
    lemma_type(value, "response.failed"@);
    lemma_type(value, "response.output_text.delta"@);
    lemma_type(value, "text_delta"@);
    lemma_type(value, "delta"@);
    lemma_type(value, "message"@);
}

/// No value is of two types.
pub proof fn law_a_value_has_one_type(value: JsonModel, kind: Seq<char>, other: Seq<char>)
    requires
        of_type(value, kind),
        of_type(value, other),
    ensures
        kind == other,
{
}

/// A value that says so completes the answer, whatever else it brings, and no
/// other value does. The usage that it reports comes with it.
pub proof fn law_completions_are_done(value: JsonModel)
    ensures
        completes(value) ==> json_event(value) == Some(
            EventModel::Done { usage: reported_usage(value) },
        ),
        json_event(value) is Some && json_event(value)->0 is Done ==> completes(value),
{
    lemma_all_types(value);
}

/// A value that reports a failure says what its `error` says under `message`, or
/// else what it says under `message` itself; what is there and is no string
/// counts as nothing said. No other value reports a failure.
pub proof fn law_failures_say_why(value: JsonModel)
    ensures
        json_event(value) is Some && json_event(value)->0 is Error ==> fails(value),
        fails(value) ==> {
            let inner = below(value.get("error"@), "message"@);
            let outer = value.get("message"@);
            &&& inner matches Some(JsonModel::Str(said)) ==> json_event(value) == Some(
                EventModel::Error(said),
            )
            &&& inner is None && is_string(outer) ==> json_event(value) == Some(
                EventModel::Error(outer->0->Str_0),
            )
            &&& inner is None && !is_string(outer) || inner is Some && !is_string(inner)
                ==> json_event(value) == Some(EventModel::Error("Codex proxy stream error"@))
        },
{
    lemma_all_types(value);
    lemma_types_differ();
    reveal_strlit("error");
    reveal_strlit("message");
    lemma_short_paths(value, "error"@, "message"@);
}

/// A value that neither completes the answer nor reports a failure, and that
/// announces text or describes no tool call, brings its text: the string at the
/// first place that holds one, character by character.
pub proof fn law_text_is_delivered_as_it_stands(value: JsonModel, text: Seq<char>)
    requires
        !completes(value),
        !fails(value),
        announces_text(value) || !describes_call(value),
        first_text_is(value, text),
        text.len() > 0,
    ensures
        json_event(value) == Some(EventModel::TextDelta(text)),
{
    lemma_all_types(value);
    law_text_is_taken_as_it_stands(value, text);
    law_what_describes_a_call(value);
}

/// Text that comes under `delta` is delivered as it stands, whatever the event is
/// called, as long as it is one that brings text.
pub proof fn law_deltas_are_delivered_as_they_stand(members: Members, kind: Seq<char>, text: Seq<char>)
    requires
        kind == "response.output_text.delta"@ || kind == "text_delta"@ || kind == "delta"@ || kind
            == "message"@,
        text.len() > 0,
    ensures
        json_event(
            JsonModel::Object(
                members.insert("type"@, JsonModel::Str(kind)).insert("delta"@, JsonModel::Str(text)),
            ),
        ) == Some(EventModel::TextDelta(text)),
{
    let value = JsonModel::Object(
        members.insert("type"@, JsonModel::Str(kind)).insert("delta"@, JsonModel::Str(text)),
    );
    lemma_types_differ();
    reveal_strlit("type");
    assert("type"@.len() == 4);
    assert(of_type(value, kind));
    assert(places(value)[0] == Some(JsonModel::Str(text)));
    assert(first_text_is(value, text));
    lemma_all_types(value);
    lemma_type(value, kind);
    law_text_is_delivered_as_it_stands(value, text);
}

/// The part of a value that may describe a tool call: what it has under `item`,
/// or else the value itself.
pub open spec fn described(value: JsonModel) -> JsonModel {
    if value.get("item"@) is Some {
        value.get("item"@)->0
    } else {
        value
    }
}

/// Whether the value describes a tool call: a call by its type, with a name.
pub open spec fn describes_call(value: JsonModel) -> bool {
    let item = described(value);
    &&& item.get("type"@) == Some(JsonModel::Str("function_call"@)) || item.get("type"@) == Some(
        JsonModel::Str("tool_call"@),
    )
    &&& is_string(item.get("name"@))
}

/// A value describes a tool call just where its type says so and it names the
/// tool.
pub proof fn law_what_describes_a_call(value: JsonModel)
    ensures
        tool_call(value) is Some <==> describes_call(value),
{
    reveal_strlit("function_call");
    reveal_strlit("tool_call");
    assert("function_call"@.len() == 13 && "tool_call"@.len() == 9);
}

/// A call described under `item` is the call that the item describes by itself,
/// whatever stands beside it.
pub proof fn law_an_item_is_the_call(members: Members, item: JsonModel)
    requires
        item.get("item"@) is None,
    ensures
        tool_call(JsonModel::Object(members.insert("item"@, item))) == tool_call(item),
{
}

/// The name of a tool call is the name that is given; its id is what is given as
/// `call_id`, or else as `id`, and `call_codex` where that is missing or no
/// string.
pub proof fn law_a_call_keeps_name_and_id(value: JsonModel)
    requires
        describes_call(value),
    ensures
        tool_call(value) is Some,
        tool_call(value)->0 matches EventModel::ToolCall { id, name, input } && {
            let item = described(value);
            &&& item.get("name"@) == Some(JsonModel::Str(name))
            &&& is_string(item.get("call_id"@)) ==> item.get("call_id"@) == Some(
                JsonModel::Str(id),
            )
            &&& item.get("call_id"@) is None && is_string(item.get("id"@)) ==> item.get("id"@)
                == Some(JsonModel::Str(id))
            &&& item.get("call_id"@) is Some && !is_string(item.get("call_id"@)) ==> id
                == "call_codex"@
            &&& item.get("call_id"@) is None && !is_string(item.get("id"@)) ==> id
                == "call_codex"@
        },
{
    law_what_describes_a_call(value);
}

/// Whether `input` is what these arguments stand for: a value for itself, a text
/// for what it reads as or, where it reads as nothing, for itself under `raw`.
pub open spec fn stands_for(arguments: JsonModel, input: JsonModel) -> bool {
    match arguments {
        JsonModel::Str(text) => match parsed_json(text) {
            Some(value) => input == value,
            None => input matches JsonModel::Object(members) && members.dom() == set!["raw"@]
                && members["raw"@] == arguments,
        },
        _ => input == arguments,
    }
}

/// The input of a tool call is what its `arguments` stand for, or else its
/// `input`, wherever the call is described; where it has neither, the input is
/// the empty object.
pub proof fn law_a_call_keeps_its_arguments(value: JsonModel)
    requires
        describes_call(value),
    ensures
        tool_call(value) is Some,
        tool_call(value)->0 matches EventModel::ToolCall { id, name, input } && {
            let item = described(value);
            &&& item.get("arguments"@) matches Some(arguments) ==> stands_for(arguments, input)
            &&& item.get("arguments"@) is None ==> (item.get("input"@) matches Some(arguments)
                ==> stands_for(arguments, input))
            &&& item.get("arguments"@) is None && item.get("input"@) is None ==> (
            input matches JsonModel::Object(members) && members.dom().len() == 0
                && members.dom().finite())
        },
{
    law_what_describes_a_call(value);
    let item = described(value);
    let input = tool_call(value)->0->input;
    let given = if item.get("arguments"@) is Some {
        item.get("arguments"@)
    } else {
        item.get("input"@)
    };
    if let Some(JsonModel::Str(text)) = given {
        if parsed_json(text) is None {
            assert(input->Object_0.dom() =~= set!["raw"@]);
        }
    }
}

/// A call that a value describes is delivered, unless the value completes the
/// answer, reports a failure, or announces text and brings some.
pub proof fn law_calls_are_delivered(value: JsonModel)
    requires
        describes_call(value),
        !completes(value),
        !fails(value),
        !(announces_text(value) && brings_text(value)),
    ensures
        json_event(value) is Some,
        json_event(value) == tool_call(value),
{
    lemma_all_types(value);
    law_what_describes_a_call(value);
    law_text_is_taken_as_it_stands(value, Seq::empty());
}

/// A value that neither completes the answer nor reports a failure, and that
/// brings no text and describes no tool call, stands for no event.
pub proof fn law_other_values_are_silent(value: JsonModel)
    requires
        !completes(value),
        !fails(value),
        !brings_text(value),
        !describes_call(value),
    ensures
        json_event(value) is None,
{
    lemma_all_types(value);
    law_what_describes_a_call(value);
    law_text_is_taken_as_it_stands(value, Seq::empty());
}

/// Whether `tokens` is what a count says: its low 32 bits, or zero where it is
/// no whole number.
pub open spec fn counted(count: JsonModel, tokens: u32) -> bool {
    match count.as_u64() {
        Some(count) => tokens == count as int % 0x1_0000_0000,
        None => tokens == 0,
    }
}

/// Whether `tokens` is the count under the one name, or else under the other, or
/// else zero.
pub open spec fn counted_under(
    usage: JsonModel,
    name: Seq<char>,
    other: Seq<char>,
    tokens: u32,
) -> bool {
    match usage.get(name) {
        Some(count) => counted(count, tokens),
        None => match usage.get(other) {
            Some(count) => counted(count, tokens),
            None => tokens == 0,
        },
    }
}

/// The usage is what stands under `usage`, or else under `usage` in `response`:
/// tokens that went in and tokens that came out, each under either of two names.
pub proof fn law_usage_is_reported(value: JsonModel)
    ensures
        ({
            let own = value.get("usage"@);
            let inner = below(value.get("response"@), "usage"@);
            let usage = if own is Some {
                own
            } else {
                inner
            };
            match reported_usage(value) {
                Some(TokenUsage { input, output }) => {
                    &&& usage is Some
                    &&& counted_under(usage->0, "input_tokens"@, "prompt_tokens"@, input)
                    &&& counted_under(usage->0, "output_tokens"@, "completion_tokens"@, output)
                },
                None => usage is None,
            }
        }),
{
    reveal_strlit("response");
    reveal_strlit("usage");
    lemma_short_paths(value, "response"@, "usage"@);
}

/// An answer in one piece delivers its text as it stands, where it brings some,
/// and then its completion, whatever type it gives itself.
pub proof fn law_an_answer_in_one_piece(value: JsonModel, text: Seq<char>)
    ensures
        ({
            let done: OutcomeModel = Ok(EventModel::Done { usage: reported_usage(value) });
            let more: OutcomeModel = Ok(EventModel::TextDelta(text));
            &&& first_text_is(value, text) && text.len() > 0 ==> response_events(value) == seq![
                more,
                done,
            ]
            &&& !brings_text(value) ==> response_events(value) == seq![done]
        }),
{
    law_text_is_taken_as_it_stands(value, text);
    let done: OutcomeModel = Ok(EventModel::Done { usage: reported_usage(value) });
    let more: OutcomeModel = Ok(EventModel::TextDelta(text));
    assert(seq![more] + seq![done] =~= seq![more, done]);
}

} // verus!
