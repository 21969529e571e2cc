//! What holds of every request to the Codex proxy, and of every answer.

use crate::json::{option_str, JsonModel, Members};
use crate::json_value::{number_of, parsed_json};
use crate::provider::event::{EventModel, OutcomeModel};
use crate::provider::message::{LlmRequest, Message, Role};
use crate::provider::proxy_body::{
    basic_members, body_members, content_text, last_user_text, message_model, messages_model,
    role_name, system_message, tool_model, with_max_tokens, with_system, with_temperature,
    with_tools,
};
use crate::provider::proxy_event::{
    extracted_text, first_string, json_event, reported_usage, response_events, text_paths,
    token_count, tool_call,
};
use crate::text::text_or_empty;
use vstd::prelude::*;

verus! {

/// The names that the members of a body may have.
pub open spec fn body_names() -> Set<Seq<char>> {
    set![
        "model"@,
        "stream"@,
        "message"@,
        "messages"@,
        "system"@,
        "instructions"@,
        "max_tokens"@,
        "max_output_tokens"@,
        "temperature"@,
        "tools"@,
    ]
}

/// The names of the members of a body are all different.
proof fn lemma_body_names_differ()
    ensures
        "model"@.len() == 5,
        "tools"@.len() == 5,
        "stream"@.len() == 6,
        "system"@.len() == 6,
        "message"@.len() == 7,
        "messages"@.len() == 8,
        "max_tokens"@.len() == 10,
        "temperature"@.len() == 11,
        "instructions"@.len() == 12,
        "max_output_tokens"@.len() == 17,
        "model"@ != "tools"@,
        "stream"@ != "system"@,
{
    reveal_strlit("model");
    reveal_strlit("tools");
    reveal_strlit("stream");
    reveal_strlit("system");
    reveal_strlit("message");
    reveal_strlit("messages");
    reveal_strlit("max_tokens");
    reveal_strlit("temperature");
    reveal_strlit("instructions");
    reveal_strlit("max_output_tokens");
    assert("model"@[0] != "tools"@[0]);
    assert("stream"@[1] != "system"@[1]);
}

/// Every body names the model, asks for a stream, and brings the
/// conversation, both whole and as the text that the user said last.
pub proof fn law_every_body(request: LlmRequest)
    ensures
        ({
            let body = JsonModel::Object(body_members(request));
            &&& body.get("model"@) == Some(JsonModel::Str(request.model@))
            &&& body.get("stream"@) == Some(JsonModel::Bool(true))
            &&& body.get("message"@) == Some(JsonModel::Str(last_user_text(request.messages@)))
            &&& body.get("messages"@) == Some(JsonModel::Array(messages_model(request)))
        }),
{
    lemma_body_names_differ();
}

/// The system prompt, the limit, the temperature and the tools are sent just
/// where the request has them; what is sent under two names is the same under
/// both; and nothing else is sent.
pub proof fn law_optional_members(request: LlmRequest)
    ensures
        ({
            let body = JsonModel::Object(body_members(request));
            &&& body.get("system"@) == match request.system {
                Some(system) => Some(JsonModel::Str(system@)),
                None => None,
            }
            &&& body.get("instructions"@) == body.get("system"@)
            &&& body.get("max_tokens"@) == match request.max_tokens {
                Some(limit) => if limit > 0 {
                    Some(JsonModel::Number(number_of(limit as u64)))
                } else {
                    None
                },
                None => None,
            }
            &&& body.get("max_output_tokens"@) == body.get("max_tokens"@)
            &&& body.get("temperature"@) == match request.temperature {
                Some(temperature) => Some(temperature@),
                None => None,
            }
            &&& body.get("tools"@) == if request.tools@.len() > 0 {
                Some(JsonModel::Array(request.tools@.map_values(|tool| tool_model(tool))))
            } else {
                None
            }
        }),
        body_members(request).dom().subset_of(body_names()),
{
    lemma_body_names_differ();
    let basic = basic_members(request);
    assert(basic.dom().subset_of(body_names()));
    let system = with_system(basic, request);
    assert(system.dom().subset_of(body_names()));
    let limited = with_max_tokens(system, request);
    assert(limited.dom().subset_of(body_names()));
    let warm = with_temperature(limited, request);
    assert(warm.dom().subset_of(body_names()));
    assert(body_members(request) == with_tools(warm, request));
}

/// The conversation is sent whole and in order, after the system prompt where
/// there is one.
pub proof fn law_conversation_is_sent_in_order(request: LlmRequest, i: int)
    requires
        0 <= i < request.messages@.len(),
    ensures
        ({
            let first: int = if request.system is Some { 1 } else { 0 };
            &&& messages_model(request).len() == first + request.messages@.len()
            &&& messages_model(request)[first + i] == message_model(request.messages@[i])
            &&& request.system is Some ==> messages_model(request)[0] == system_message(
                request.system->0@,
            )
        }),
{
}

/// The content of the last of some sent messages that is from the user.
pub open spec fn last_user_content(messages: Seq<JsonModel>) -> Seq<char>
    decreases messages.len(),
{
    if messages.len() == 0 {
        Seq::empty()
    } else if option_str(messages.last().get("role"@)) == Some("user"@) {
        text_or_empty(option_str(messages.last().get("content"@)))
    } else {
        last_user_content(messages.drop_last())
    }
}

/// The text under `message` is the content of the last message from the user
/// among those under `messages`.
pub proof fn law_message_is_among_the_messages(request: LlmRequest)
    ensures
        last_user_content(messages_model(request)) == last_user_text(request.messages@),
{
    let front: Seq<JsonModel> = match request.system {
        Some(system) => seq![system_message(system@)],
        None => Seq::empty(),
    };
    let conversation = request.messages@.map_values(|message: Message| message_model(message));
    assert(messages_model(request) =~= front + conversation);
    assert(last_user_content(front) == Seq::<char>::empty()) by {
        lemma_message_names_differ();
        reveal_with_fuel(last_user_content, 2);
        if front.len() == 1 {
            assert(front.drop_last() =~= Seq::empty());
        }
    }
    lemma_last_user(front, request.messages@);
}

/// The names in a message are all different, and so are the roles.
proof fn lemma_message_names_differ()
    ensures
        "role"@ != "content"@,
        "role"@ != "parts"@,
        "content"@ != "parts"@,
        forall|role: Role| #[trigger] role_name(role) == "user"@ <==> role == Role::User,
        "system"@ != "user"@,
{
    reveal_strlit("role");
    reveal_strlit("content");
    reveal_strlit("parts");
    reveal_strlit("system");
    reveal_strlit("user");
    reveal_strlit("assistant");
    reveal_strlit("tool");
    assert("role"@.len() == 4 && "content"@.len() == 7 && "parts"@.len() == 5);
    assert("user"@.len() == 4 && "system"@.len() == 6 && "assistant"@.len() == 9);
    assert("tool"@[0] != "user"@[0]);
}

/// The last user message is found alike among the messages and among what is
/// sent of them.
proof fn lemma_last_user(front: Seq<JsonModel>, messages: Seq<Message>)
    requires
        last_user_content(front) == Seq::<char>::empty(),
    ensures
        last_user_content(
            front + messages.map_values(|message: Message| message_model(message)),
        ) == last_user_text(messages),
    decreases messages.len(),
{
    let sent = messages.map_values(|message: Message| message_model(message));
    if messages.len() == 0 {
        assert(front + sent =~= front);
    } else {
        lemma_message_names_differ();
        let shorter = messages.drop_last();
        lemma_last_user(front, shorter);
        let sent_shorter = shorter.map_values(|message: Message| message_model(message));
        assert((front + sent).drop_last() =~= front + sent_shorter);
        assert((front + sent).last() == message_model(messages.last()));
        assert(option_str(message_model(messages.last()).get("role"@)) == Some(
            role_name(messages.last().role),
        ));
        assert(option_str(message_model(messages.last()).get("content"@)) == Some(
            content_text(messages.last().content),
        ));
    }
}

/// Whether an outcome completes the answer.
pub open spec fn is_done(outcome: OutcomeModel) -> bool {
    match outcome {
        Ok(EventModel::Done { usage }) => true,
        _ => false,
    }
}

/// An answer in one piece is complete: its last event says so, and no other
/// does.
pub proof fn law_answer_in_one_piece_is_complete(value: JsonModel)
    ensures
        ({
            let events = response_events(value);
            &&& 1 <= events.len() <= 2
            &&& events.last() == Ok::<EventModel, Seq<char>>(
                EventModel::Done { usage: reported_usage(value) },
            )
            &&& forall|i: int| 0 <= i < events.len() - 1 ==> !is_done(#[trigger] events[i])
        }),
{
}

/// No event brings an empty text.
pub proof fn law_no_empty_text(value: JsonModel)
    ensures
        json_event(value) matches Some(EventModel::TextDelta(text)) ==> text.len() > 0,
        extracted_text(value) matches Some(text) ==> text.len() > 0,
{
}

/// The text of a value is the string at the first of the places that holds
/// one; where that string is empty, or no place holds one, there is none.
pub proof fn law_first_place_counts(value: JsonModel, at: int)
    requires
        0 <= at <= text_paths().len(),
        forall|i: int|
            0 <= i < at ==> option_str(value.pointer(#[trigger] text_paths()[i])) is None,
        at < text_paths().len() ==> option_str(value.pointer(text_paths()[at])) is Some,
    ensures
        extracted_text(value) == if at < text_paths().len() && option_str(
            value.pointer(text_paths()[at]),
        )->0.len() > 0 {
            option_str(value.pointer(text_paths()[at]))
        } else {
            None
        },
{
    lemma_first_string(value, text_paths(), at);
}

/// The same of any places.
pub proof fn lemma_first_string(value: JsonModel, paths: Seq<Seq<Seq<char>>>, at: int)
    requires
        0 <= at <= paths.len(),
        forall|i: int| 0 <= i < at ==> option_str(value.pointer(#[trigger] paths[i])) is None,
        at < paths.len() ==> option_str(value.pointer(paths[at])) is Some,
    ensures
        first_string(value, paths) == if at < paths.len() {
            option_str(value.pointer(paths[at]))
        } else {
            None
        },
    decreases paths.len(),
{
    if at > 0 {
        assert(option_str(value.pointer(paths[0])) is None);
        let rest = paths.drop_first();
        assert forall|i: int| 0 <= i < at - 1 implies option_str(
            value.pointer(#[trigger] rest[i]),
        ) is None by {
            assert(rest[i] == paths[i + 1]);
        }
        lemma_first_string(value, rest, at - 1);
    }
}

/// It does not matter whether the arguments of a tool call are given as a value
/// or as a text that reads as that value, such as the text that
/// [`json_text`](crate::json_value::json_text) writes for a value without
/// floats: the tool call is the same, and where the value describes the call
/// itself, its input is the value. Arguments that are a string are left out:
/// they are a text already.
pub proof fn law_arguments_may_be_text(members: Members, arguments: JsonModel, text: Seq<char>)
    requires
        parsed_json(text) == Some(arguments),
        !(arguments is Str),
    ensures
        ({
            let given = JsonModel::Object(members.insert("arguments"@, arguments));
            let written = JsonModel::Object(members.insert("arguments"@, JsonModel::Str(text)));
            &&& tool_call(given) == tool_call(written)
            &&& !members.contains_key("item"@) ==> (tool_call(given) matches Some(
                EventModel::ToolCall { id, name, input },
            ) ==> input == arguments)
        }),
{
    reveal_strlit("arguments");
    reveal_strlit("item");
    reveal_strlit("type");
    reveal_strlit("name");
    reveal_strlit("call_id");
    reveal_strlit("id");
    reveal_strlit("input");
    assert("arguments"@.len() == 9 && "item"@.len() == 4 && "type"@.len() == 4);
    assert("name"@.len() == 4 && "call_id"@.len() == 7 && "id"@.len() == 2 && "input"@.len() == 5);
}

/// The same where the call is described in the member `item`.
pub proof fn law_arguments_of_an_item_may_be_text(
    members: Members,
    item: Members,
    arguments: JsonModel,
    text: Seq<char>,
)
    requires
        parsed_json(text) == Some(arguments),
        !(arguments is Str),
    ensures
        ({
            let given = JsonModel::Object(item.insert("arguments"@, arguments));
            let written = JsonModel::Object(item.insert("arguments"@, JsonModel::Str(text)));
            tool_call(JsonModel::Object(members.insert("item"@, given))) == tool_call(
                JsonModel::Object(members.insert("item"@, written)),
            )
        }),
{
    reveal_strlit("arguments");
    reveal_strlit("type");
    reveal_strlit("name");
    reveal_strlit("call_id");
    reveal_strlit("id");
    reveal_strlit("input");
    assert("arguments"@.len() == 9 && "type"@.len() == 4 && "name"@.len() == 4);
    assert("call_id"@.len() == 7 && "id"@.len() == 2 && "input"@.len() == 5);
}

/// A count of tokens below 2^32 is reported as it is.
pub proof fn law_small_counts_are_exact(count: JsonModel)
    requires
        count.as_u64() is Some,
        count.as_u64()->0 < 0x1_0000_0000,
    ensures
        token_count(Some(count)) == count.as_u64()->0,
{
}

} // verus!
