//! What holds of every body of a request to the Codex proxy, member by member.

use crate::json::JsonModel;
use crate::json_value::{number_of, written_json};
use crate::provider::message::{
    ContentPart, LlmRequest, Message, MessageContent, Role, ToolDef,
};
use crate::provider::proxy_body::{
    body_members, content_text, last_user_text, message_model, messages_model, part_model,
    part_text, parts_model, role_name, system_message, tool_model,
};
use crate::provider::proxy_laws::{law_every_body, law_optional_members};
use crate::text::joined;
use vstd::prelude::*;

verus! {

/// Whether the value is an object with members of just these names.
pub open spec fn has_just(value: JsonModel, names: Set<Seq<char>>) -> bool {
    value matches JsonModel::Object(members) && members.dom() == names
}

/// Whether the value has that text under that name.
pub open spec fn says(value: JsonModel, name: Seq<char>, text: Seq<char>) -> bool {
    value.get(name) == Some(JsonModel::Str(text))
}

/// The names in a message, in its parts and in a tool are all different.
proof fn lemma_names_differ()
    ensures
        "role"@.len() == 4,
        "content"@.len() == 7,
        "parts"@.len() == 5,
        "type"@.len() == 4,
        "text"@.len() == 4,
        "type"@ != "text"@,
        "type"@ != "role"@,
        "url"@.len() == 3,
        "id"@.len() == 2,
        "name"@.len() == 4,
        "type"@ != "name"@,
        "input"@.len() == 5,
        "tool_use_id"@.len() == 11,
        "is_error"@.len() == 8,
        "function"@.len() == 8,
        "description"@.len() == 11,
        "parameters"@.len() == 10,
{
    reveal_strlit("role");
    reveal_strlit("content");
    reveal_strlit("parts");
    reveal_strlit("type");
    reveal_strlit("text");
    reveal_strlit("url");
    reveal_strlit("id");
    reveal_strlit("name");
    reveal_strlit("input");
    reveal_strlit("tool_use_id");
    reveal_strlit("is_error");
    reveal_strlit("function");
    reveal_strlit("description");
    reveal_strlit("parameters");
    assert("type"@[1] != "text"@[1]);
    assert("type"@[0] != "role"@[0]);
    assert("type"@[0] != "name"@[0]);
}

/// Every message is sent with the name of its role, the text of its content and
/// its parts, whatever the role, and with nothing else.
pub proof fn law_a_message_is_sent_whole(message: Message)
    ensures
        ({
            let sent = message_model(message);
            &&& has_just(sent, set!["role"@, "content"@, "parts"@])
            &&& message.role is System ==> says(sent, "role"@, "system"@)
            &&& message.role is User ==> says(sent, "role"@, "user"@)
            &&& message.role is Assistant ==> says(sent, "role"@, "assistant"@)
            &&& message.role is Tool ==> says(sent, "role"@, "tool"@)
            &&& says(sent, "content"@, content_text(message.content))
            &&& sent.get("parts"@) == Some(JsonModel::Array(parts_model(message.content)))
        }),
{
    lemma_names_differ();
    let sent = message_model(message);
    assert(sent->Object_0.dom() =~= set!["role"@, "content"@, "parts"@]);
}

/// A message of plain text is sent with that text, both as its content and as
/// its one part, whatever its role.
pub proof fn law_plain_text_is_sent_as_it_is(message: Message, text: String)
    requires
        message.content == MessageContent::Text(text),
    ensures
        ({
            let sent = message_model(message);
            &&& says(sent, "content"@, text@)
            &&& sent.get("parts"@) matches Some(JsonModel::Array(parts)) && parts.len() == 1
                && has_just(parts[0], set!["type"@, "text"@]) && says(parts[0], "type"@, "text"@)
                && says(parts[0], "text"@, text@)
        }),
{
    lemma_names_differ();
    let part = parts_model(message.content)[0];
    assert(part->Object_0.dom() =~= set!["type"@, "text"@]);
}

/// The content of a message in parts is its parts, one to a line and in their
/// order: text and the results of tools as they are, an image and the call of a
/// tool in brackets.
pub proof fn law_parts_are_put_into_lines(parts: Vec<ContentPart>)
    ensures
        exists|lines: Seq<Seq<char>>|
            #![trigger joined(lines, "\n"@)]
            {
                &&& content_text(MessageContent::Parts(parts)) == joined(lines, "\n"@)
                &&& lines.len() == parts@.len()
                &&& forall|i: int|
                    0 <= i < lines.len() ==> is_line_of(#[trigger] lines[i], parts@[i])
            },
{
    let lines = parts@.map_values(|part: ContentPart| part_text(part));
    assert(content_text(MessageContent::Parts(parts)) == joined(lines, "\n"@));
    assert forall|i: int| 0 <= i < lines.len() implies is_line_of(#[trigger] lines[i], parts@[i]) by {
        assert(lines[i] == part_text(parts@[i]));
    }
}

/// Whether the line is what stands in a text for the part.
pub open spec fn is_line_of(line: Seq<char>, part: ContentPart) -> bool {
    match part {
        ContentPart::Text { text } => line == text@,
        ContentPart::ToolResult { tool_use_id, content, is_error } => line == content@,
        ContentPart::Image { url } => line == "[image: "@ + url@ + "]"@,
        ContentPart::ToolUse { id, name, input } => line == "[tool_call: "@ + name@ + " "@
            + written_json(input@) + "]"@,
    }
}

/// The parts of a message are sent one by one, in their order.
pub proof fn law_parts_are_sent_in_order(parts: Vec<ContentPart>, i: int)
    requires
        0 <= i < parts@.len(),
    ensures
        parts_model(MessageContent::Parts(parts)).len() == parts@.len(),
        is_sent_as(parts@[i], parts_model(MessageContent::Parts(parts))[i]),
{
    lemma_names_differ();
    let sent = parts_model(MessageContent::Parts(parts))[i];
    assert(sent == part_model(parts@[i]));
    match parts@[i] {
        ContentPart::Text { text } => {
            assert(sent->Object_0.dom() =~= set!["type"@, "text"@]);
        },
        ContentPart::Image { url } => {
            assert(sent->Object_0.dom() =~= set!["type"@, "url"@]);
        },
        ContentPart::ToolUse { id, name, input } => {
            assert(sent->Object_0.dom() =~= set!["type"@, "id"@, "name"@, "input"@]);
        },
        ContentPart::ToolResult { tool_use_id, content, is_error } => {
            assert(sent->Object_0.dom() =~= set!["type"@, "tool_use_id"@, "content"@, "is_error"@]);
        },
    }
}

/// Whether the value is what is sent of a part: its kind and what it holds, and
/// nothing else.
pub open spec fn is_sent_as(part: ContentPart, sent: JsonModel) -> bool {
    match part {
        ContentPart::Text { text } => {
            &&& has_just(sent, set!["type"@, "text"@])
            &&& says(sent, "type"@, "text"@)
            &&& says(sent, "text"@, text@)
        },
        ContentPart::Image { url } => {
            &&& has_just(sent, set!["type"@, "url"@])
            &&& says(sent, "type"@, "image"@)
            &&& says(sent, "url"@, url@)
        },
        ContentPart::ToolUse { id, name, input } => {
            &&& has_just(sent, set!["type"@, "id"@, "name"@, "input"@])
            &&& says(sent, "type"@, "tool_use"@)
            &&& says(sent, "id"@, id@)
            &&& says(sent, "name"@, name@)
            &&& sent.get("input"@) == Some(input@)
        },
        ContentPart::ToolResult { tool_use_id, content, is_error } => {
            &&& has_just(sent, set!["type"@, "tool_use_id"@, "content"@, "is_error"@])
            &&& says(sent, "type"@, "tool_result"@)
            &&& says(sent, "tool_use_id"@, tool_use_id@)
            &&& says(sent, "content"@, content@)
            &&& is_error matches Some(flag) ==> sent.get("is_error"@) == Some(
                JsonModel::Bool(flag),
            )
            &&& is_error is None ==> sent.get("is_error"@) == Some(JsonModel::Null)
        },
    }
}

/// The body brings the whole conversation, message by message and in order: the
/// system prompt first, where there is one, and then each message with the name
/// of its role, the text of its content and its parts.
pub proof fn law_the_body_brings_the_conversation(request: LlmRequest, i: int)
    requires
        0 <= i < request.messages@.len(),
    ensures
        ({
            let body = JsonModel::Object(body_members(request));
            let first: int = if request.system is Some {
                1
            } else {
                0
            };
            &&& body.get("messages"@) matches Some(JsonModel::Array(sent)) && {
                &&& sent.len() == first + request.messages@.len()
                &&& sent[first + i] == message_model(request.messages@[i])
                &&& says(sent[first + i], "content"@, content_text(request.messages@[i].content))
                &&& request.system matches Some(system) ==> {
                    &&& has_just(sent[0], set!["role"@, "content"@])
                    &&& says(sent[0], "role"@, "system"@)
                    &&& says(sent[0], "content"@, system@)
                }
            }
        }),
{
    law_every_body(request);
    lemma_names_differ();
    law_a_message_is_sent_whole(request.messages@[i]);
    let sent = messages_model(request);
    if let Some(system) = request.system {
        assert(sent[0] == system_message(system@));
        assert(sent[0]->Object_0.dom() =~= set!["role"@, "content"@]);
    }
}

/// A request without messages brings the system prompt alone, or nothing.
pub proof fn law_an_empty_conversation(request: LlmRequest)
    requires
        request.messages@.len() == 0,
    ensures
        ({
            let body = JsonModel::Object(body_members(request));
            &&& body.get("messages"@) matches Some(JsonModel::Array(sent)) && {
                &&& request.system is None ==> sent.len() == 0
                &&& request.system matches Some(system) ==> sent.len() == 1 && says(
                    sent[0],
                    "role"@,
                    "system"@,
                ) && says(sent[0], "content"@, system@)
            }
            &&& says(body, "message"@, Seq::empty())
        }),
{
    law_every_body(request);
    lemma_names_differ();
}

/// The text under `message` is that of the last message from the user; it is
/// empty where no message is from the user.
pub proof fn law_the_body_brings_what_the_user_said_last(request: LlmRequest, last: int)
    requires
        -1 <= last < request.messages@.len(),
        forall|i: int|
            last < i < request.messages@.len() ==> !((#[trigger] request.messages@[i]).role is User),
        last >= 0 ==> request.messages@[last].role is User,
    ensures
        ({
            let body = JsonModel::Object(body_members(request));
            &&& last >= 0 ==> says(
                body,
                "message"@,
                content_text(request.messages@[last].content),
            )
            &&& last < 0 ==> says(body, "message"@, Seq::empty())
        }),
{
    law_every_body(request);
    lemma_last_user(request.messages@, last);
}

/// The last message from the user.
proof fn lemma_last_user(messages: Seq<Message>, last: int)
    requires
        -1 <= last < messages.len(),
        forall|i: int| last < i < messages.len() ==> !((#[trigger] messages[i]).role is User),
        last >= 0 ==> messages[last].role is User,
    ensures
        last >= 0 ==> last_user_text(messages) == content_text(messages[last].content),
        last < 0 ==> last_user_text(messages) == Seq::<char>::empty(),
    decreases messages.len(),
{
    if messages.len() > 0 && last < messages.len() - 1 {
        assert(!(messages[messages.len() - 1].role is User));
        let shorter = messages.drop_last();
        assert forall|i: int| last < i < shorter.len() implies !((
        #[trigger] shorter[i]).role is User) by {
            assert(shorter[i] == messages[i]);
        }
        lemma_last_user(shorter, last);
    }
}

/// Each tool is sent in its order, described twice: as a function, and by
/// itself.
pub proof fn law_the_body_brings_the_tools(request: LlmRequest, i: int)
    requires
        0 <= i < request.tools@.len(),
    ensures
        ({
            let body = JsonModel::Object(body_members(request));
            let tool = request.tools@[i];
            &&& body.get("tools"@) matches Some(JsonModel::Array(sent)) && {
                &&& sent.len() == request.tools@.len()
                &&& has_just(
                    sent[i],
                    set!["type"@, "function"@, "name"@, "description"@, "parameters"@],
                )
                &&& says(sent[i], "type"@, "function"@)
                &&& describes(sent[i], tool)
                &&& sent[i].get("function"@) matches Some(function) && describes(function, tool)
                    && has_just(function, set!["name"@, "description"@, "parameters"@])
            }
        }),
{
    law_optional_members(request);
    lemma_names_differ();
    reveal_strlit("function");
    reveal_strlit("is_error");
    let tool = request.tools@[i];
    let sent = tool_model(tool);
    assert(request.tools@.map_values(|tool: ToolDef| tool_model(tool))[i] == sent);
    assert(sent->Object_0.dom() =~= set![
        "type"@,
        "function"@,
        "name"@,
        "description"@,
        "parameters"@,
    ]);
    let function = sent.get("function"@)->0;
    assert(function->Object_0.dom() =~= set!["name"@, "description"@, "parameters"@]);
}

/// Whether the value has the name of the tool, its description and its
/// parameters.
pub open spec fn describes(value: JsonModel, tool: ToolDef) -> bool {
    &&& says(value, "name"@, tool.name@)
    &&& says(value, "description"@, tool.description@)
    &&& value.get("parameters"@) == Some(tool.parameters@)
}

/// The model, the system prompt, the limit on the answer and the temperature are
/// sent as they are; without tools none are sent.
pub proof fn law_the_body_brings_the_settings(request: LlmRequest)
    ensures
        ({
            let body = JsonModel::Object(body_members(request));
            &&& says(body, "model"@, request.model@)
            &&& body.get("stream"@) == Some(JsonModel::Bool(true))
            &&& request.system matches Some(system) ==> says(body, "system"@, system@) && says(
                body,
                "instructions"@,
                system@,
            )
            &&& request.system is None ==> body.get("system"@) is None && body.get(
                "instructions"@,
            ) is None
            &&& request.max_tokens matches Some(limit) ==> limit > 0 ==> {
                &&& body.get("max_tokens"@) == Some(JsonModel::Number(number_of(limit as u64)))
                &&& body.get("max_output_tokens"@) == body.get("max_tokens"@)
            }
            &&& request.max_tokens is None || request.max_tokens == Some(0u32) ==> body.get(
                "max_tokens"@,
            ) is None && body.get("max_output_tokens"@) is None
            &&& request.temperature matches Some(temperature) ==> body.get("temperature"@) == Some(
                temperature@,
            )
            &&& request.temperature is None ==> body.get("temperature"@) is None
            &&& request.tools@.len() == 0 ==> body.get("tools"@) is None
        }),
{
    law_every_body(request);
    law_optional_members(request);
}

/// Two roles have two names.
pub proof fn law_roles_are_told_apart(role: Role, other: Role)
    ensures
        role_name(role) == role_name(other) ==> role == other,
{
    reveal_strlit("system");
    reveal_strlit("user");
    reveal_strlit("assistant");
    reveal_strlit("tool");
    assert("system"@.len() == 6 && "user"@.len() == 4 && "assistant"@.len() == 9);
    assert("tool"@.len() == 4 && "tool"@[0] != "user"@[0]);
}

} // verus!
