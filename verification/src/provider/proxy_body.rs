//! The body of a request to the Codex proxy.

use crate::json::{
    items_model, lemma_items_push, members_model, no_members, push_member, Json, JsonModel,
    Members,
};
use crate::json_value::{json_number, json_text, number_of, written_json};
use crate::provider::message::{
    ContentPart, LlmRequest, Message, MessageContent, Role, ToolDef,
};
use crate::text::{join, joined};
use vstd::prelude::*;
use vstd::string::*;

verus! {

/// The name under which a role is sent.
pub open spec fn role_name(role: Role) -> Seq<char> {
    match role {
        Role::System => "system"@,
        Role::User => "user"@,
        Role::Assistant => "assistant"@,
        Role::Tool => "tool"@,
    }
}

/// The line that stands in a text for the call of a tool.
pub open spec fn tool_call_line(name: Seq<char>, input: Seq<char>) -> Seq<char> {
    "[tool_call: "@ + name + " "@ + input + "]"@
}

/// The line that stands in a text for an image.
pub open spec fn image_line(url: Seq<char>) -> Seq<char> {
    "[image: "@ + url + "]"@
}

/// One part of a message as text.
pub open spec fn part_text(part: ContentPart) -> Seq<char> {
    match part {
        ContentPart::Text { text } => text@,
        ContentPart::ToolResult { tool_use_id, content, is_error } => content@,
        ContentPart::Image { url } => image_line(url@),
        ContentPart::ToolUse { id, name, input } => tool_call_line(name@, written_json(input@)),
    }
}

/// The content of a message as one text: its parts, one to a line.
pub open spec fn content_text(content: MessageContent) -> Seq<char> {
    match content {
        MessageContent::Text(text) => text@,
        MessageContent::Parts(parts) => joined(
            parts@.map_values(|part: ContentPart| part_text(part)),
            "\n"@,
        ),
    }
}

/// A part of plain text.
pub open spec fn text_part_model(text: Seq<char>) -> JsonModel {
    JsonModel::Object(
        no_members().insert("type"@, JsonModel::Str("text"@)).insert(
            "text"@,
            JsonModel::Str(text),
        ),
    )
}

/// A mark that may be missing.
pub open spec fn flag_model(flag: Option<bool>) -> JsonModel {
    match flag {
        Some(flag) => JsonModel::Bool(flag),
        None => JsonModel::Null,
    }
}

/// One part of a message as it is sent.
pub open spec fn part_model(part: ContentPart) -> JsonModel {
    match part {
        ContentPart::Text { text } => text_part_model(text@),
        ContentPart::Image { url } => JsonModel::Object(
            no_members().insert("type"@, JsonModel::Str("image"@)).insert(
                "url"@,
                JsonModel::Str(url@),
            ),
        ),
        ContentPart::ToolUse { id, name, input } => JsonModel::Object(
            no_members().insert("type"@, JsonModel::Str("tool_use"@)).insert(
                "id"@,
                JsonModel::Str(id@),
            ).insert("name"@, JsonModel::Str(name@)).insert("input"@, input@),
        ),
        ContentPart::ToolResult { tool_use_id, content, is_error } => JsonModel::Object(
            no_members().insert("type"@, JsonModel::Str("tool_result"@)).insert(
                "tool_use_id"@,
                JsonModel::Str(tool_use_id@),
            ).insert("content"@, JsonModel::Str(content@)).insert("is_error"@, flag_model(is_error)),
        ),
    }
}

/// The parts of a message as they are sent.
pub open spec fn parts_model(content: MessageContent) -> Seq<JsonModel> {
    match content {
        MessageContent::Text(text) => seq![text_part_model(text@)],
        MessageContent::Parts(parts) => parts@.map_values(|part: ContentPart| part_model(part)),
    }
}

/// A message as it is sent: its role, its content as one text, and its parts.
pub open spec fn message_model(message: Message) -> JsonModel {
    JsonModel::Object(
        no_members().insert("role"@, JsonModel::Str(role_name(message.role))).insert(
            "content"@,
            JsonModel::Str(content_text(message.content)),
        ).insert("parts"@, JsonModel::Array(parts_model(message.content))),
    )
}

/// The system prompt as a message.
pub open spec fn system_message(system: Seq<char>) -> JsonModel {
    JsonModel::Object(
        no_members().insert("role"@, JsonModel::Str("system"@)).insert(
            "content"@,
            JsonModel::Str(system),
        ),
    )
}

/// The messages of a request as they are sent, the system prompt first.
pub open spec fn messages_model(request: LlmRequest) -> Seq<JsonModel> {
    let conversation = request.messages@.map_values(|message: Message| message_model(message));
    match request.system {
        Some(system) => seq![system_message(system@)] + conversation,
        None => conversation,
    }
}

/// The text of the last message that is from the user; empty where none is.
pub open spec fn last_user_text(messages: Seq<Message>) -> Seq<char>
    decreases messages.len(),
{
    if messages.len() == 0 {
        Seq::empty()
    } else if messages.last().role == Role::User {
        content_text(messages.last().content)
    } else {
        last_user_text(messages.drop_last())
    }
}

/// The three members that describe a tool.
pub open spec fn with_tool(members: Members, tool: ToolDef) -> Members {
    members.insert("name"@, JsonModel::Str(tool.name@)).insert(
        "description"@,
        JsonModel::Str(tool.description@),
    ).insert("parameters"@, tool.parameters@)
}

/// A tool as it is sent: described both as a function and by itself.
pub open spec fn tool_model(tool: ToolDef) -> JsonModel {
    JsonModel::Object(
        with_tool(
            no_members().insert("type"@, JsonModel::Str("function"@)).insert(
                "function"@,
                JsonModel::Object(with_tool(no_members(), tool)),
            ),
            tool,
        ),
    )
}

/// The members that every body has.
pub open spec fn basic_members(request: LlmRequest) -> Members {
    no_members().insert("model"@, JsonModel::Str(request.model@)).insert(
        "stream"@,
        JsonModel::Bool(true),
    ).insert("message"@, JsonModel::Str(last_user_text(request.messages@))).insert(
        "messages"@,
        JsonModel::Array(messages_model(request)),
    )
}

/// With the system prompt, under both of its names, where there is one.
pub open spec fn with_system(members: Members, request: LlmRequest) -> Members {
    match request.system {
        Some(system) => members.insert("system"@, JsonModel::Str(system@)).insert(
            "instructions"@,
            JsonModel::Str(system@),
        ),
        None => members,
    }
}

/// With the limit on the answer, under both of its names, where there is one
/// above zero.
pub open spec fn with_max_tokens(members: Members, request: LlmRequest) -> Members {
    match request.max_tokens {
        Some(limit) => if limit > 0 {
            members.insert("max_tokens"@, JsonModel::Number(number_of(limit as u64))).insert(
                "max_output_tokens"@,
                JsonModel::Number(number_of(limit as u64)),
            )
        } else {
            members
        },
        None => members,
    }
}

/// With the temperature, where there is one.
pub open spec fn with_temperature(members: Members, request: LlmRequest) -> Members {
    match request.temperature {
        Some(temperature) => members.insert("temperature"@, temperature@),
        None => members,
    }
}

/// With the tools, where there are any.
pub open spec fn with_tools(members: Members, request: LlmRequest) -> Members {
    if request.tools@.len() == 0 {
        members
    } else {
        members.insert(
            "tools"@,
            JsonModel::Array(request.tools@.map_values(|tool: ToolDef| tool_model(tool))),
        )
    }
}

/// The members of the body of a request.
pub open spec fn body_members(request: LlmRequest) -> Members {
    with_tools(
        with_temperature(
            with_max_tokens(with_system(basic_members(request), request), request),
            request,
        ),
        request,
    )
}

/// The name under which a role is sent.
pub fn role_to_str(role: &Role) -> (name: &'static str)
    ensures
        name@ == role_name(*role),
{
    match role {
        Role::System => "system",
        Role::User => "user",
        Role::Assistant => "assistant",
        Role::Tool => "tool",
    }
}

/// The line that stands in a text for a call of the tool `name`, where
/// `input` is the text of its input.
pub fn tool_call_to_text(name: &str, input: &str) -> (line: String)
    ensures
        line@ == tool_call_line(name@, input@),
{
    let mut line = "[tool_call: ".to_owned();
    line.append(name);
    line.append(" ");
    line.append(input);
    line.append("]");
    line
}

/// The content of a message as one text: its parts, one to a line.
pub fn content_to_text(content: &MessageContent) -> (text: String)
    ensures
        text@ == content_text(*content),
{
    match content {
        MessageContent::Text(text) => text.clone(),
        MessageContent::Parts(parts) => {
            let mut pieces: Vec<String> = Vec::new();
            for i in 0..parts.len()
                invariant
                    pieces@.len() == i,
                    forall|j: int| 0 <= j < i ==> #[trigger] pieces@[j]@ == part_text(parts@[j]),
            {
                let piece = match &parts[i] {
                    ContentPart::Text { text } => text.clone(),
                    ContentPart::ToolResult { content, .. } => content.clone(),
                    ContentPart::Image { url } => {
                        let mut line = "[image: ".to_owned();
                        line.append(url.as_str());
                        line.append("]");
                        line
                    },
                    ContentPart::ToolUse { name, input, .. } => tool_call_to_text(
                        name.as_str(),
                        json_text(input).as_str(),
                    ),
                };
                pieces.push(piece);
            }
            assert(pieces@.map_values(|piece: String| piece@) =~= parts@.map_values(
                |part: ContentPart| part_text(part),
            ));
            join(&pieces, "\n")
        },
    }
}

/// A part of plain text as it is sent.
fn text_part(text: &str) -> (json: Json)
    ensures
        json@ == text_part_model(text@),
{
    let mut members: Vec<(String, Json)> = Vec::new();
    push_member(&mut members, "type", Json::text("text"));
    push_member(&mut members, "text", Json::text(text));
    Json::Object(members)
}

/// One part of a message as it is sent.
fn part_to_json(part: &ContentPart) -> (json: Json)
    ensures
        json@ == part_model(*part),
{
    let mut members: Vec<(String, Json)> = Vec::new();
    match part {
        ContentPart::Text { text } => {
            return text_part(text.as_str());
        },
        ContentPart::Image { url } => {
            push_member(&mut members, "type", Json::text("image"));
            push_member(&mut members, "url", Json::text(url.as_str()));
        },
        ContentPart::ToolUse { id, name, input } => {
            push_member(&mut members, "type", Json::text("tool_use"));
            push_member(&mut members, "id", Json::text(id.as_str()));
            push_member(&mut members, "name", Json::text(name.as_str()));
            push_member(&mut members, "input", input.copy());
        },
        ContentPart::ToolResult { tool_use_id, content, is_error } => {
            let flag = match is_error {
                Some(flag) => Json::Bool(*flag),
                None => Json::Null,
            };
            push_member(&mut members, "type", Json::text("tool_result"));
            push_member(&mut members, "tool_use_id", Json::text(tool_use_id.as_str()));
            push_member(&mut members, "content", Json::text(content.as_str()));
            push_member(&mut members, "is_error", flag);
        },
    }
    Json::Object(members)
}

/// The parts of a message as they are sent.
pub fn content_to_parts(content: &MessageContent) -> (json: Json)
    ensures
        json@ == JsonModel::Array(parts_model(*content)),
{
    let mut items: Vec<Json> = Vec::new();
    match content {
        MessageContent::Text(text) => {
            let part = text_part(text.as_str());
            proof {
                lemma_items_push(items@, part);
                assert(items_model(items@) =~= Seq::empty());
                assert(items_model(items@.push(part)) =~= parts_model(*content));
            }
            items.push(part);
        },
        MessageContent::Parts(parts) => {
            for i in 0..parts.len()
                invariant
                    items_model(items@) =~= parts@.take(i as int).map_values(
                        |part: ContentPart| part_model(part),
                    ),
            {
                let part = part_to_json(&parts[i]);
                proof {
                    lemma_items_push(items@, part);
                }
                items.push(part);
            }
            assert(parts@.take(parts.len() as int) =~= parts@);
        },
    }
    Json::Array(items)
}

/// A message as it is sent.
pub fn message_to_proxy_message(message: &Message) -> (json: Json)
    ensures
        json@ == message_model(*message),
{
    let mut members: Vec<(String, Json)> = Vec::new();
    push_member(&mut members, "role", Json::text(role_to_str(&message.role)));
    push_member(&mut members, "content", Json::Str(content_to_text(&message.content)));
    push_member(&mut members, "parts", content_to_parts(&message.content));
    Json::Object(members)
}

/// The messages of a request as they are sent, the system prompt first.
pub fn request_messages(request: &LlmRequest) -> (messages: Vec<Json>)
    ensures
        items_model(messages@) == messages_model(*request),
{
    let mut messages: Vec<Json> = Vec::new();
    let ghost mut front: Seq<JsonModel> = Seq::empty();
    assert(items_model(messages@) =~= front);
    if let Some(system) = &request.system {
        let mut members: Vec<(String, Json)> = Vec::new();
        push_member(&mut members, "role", Json::text("system"));
        push_member(&mut members, "content", Json::text(system.as_str()));
        let message = Json::Object(members);
        proof {
            lemma_items_push(messages@, message);
            front = seq![system_message(system@)];
            assert(items_model(messages@.push(message)) =~= front);
        }
        messages.push(message);
    }
    for i in 0..request.messages.len()
        invariant
            items_model(messages@) =~= front + request.messages@.take(i as int).map_values(
                |message: Message| message_model(message),
            ),
    {
        let message = message_to_proxy_message(&request.messages[i]);
        proof {
            lemma_items_push(messages@, message);
        }
        messages.push(message);
    }
    proof {
        assert(request.messages@.take(request.messages.len() as int) =~= request.messages@);
        assert(items_model(messages@) =~= messages_model(*request));
    }
    messages
}

/// The text of the last message that is from the user; empty where none is.
fn last_user_message(messages: &Vec<Message>) -> (text: String)
    ensures
        text@ == last_user_text(messages@),
{
    let mut end: usize = messages.len();
    assert(messages@.take(end as int) =~= messages@);
    while end > 0
        invariant
            end <= messages.len(),
            last_user_text(messages@.take(end as int)) == last_user_text(messages@),
        decreases end,
    {
        assert(messages@.take(end as int).drop_last() =~= messages@.take(end - 1));
        if messages[end - 1].role == Role::User {
            return content_to_text(&messages[end - 1].content);
        }
        end = end - 1;
    }
    String::new()
}

/// Adds the three members that describe a tool.
fn push_tool(members: &mut Vec<(String, Json)>, tool: &ToolDef)
    ensures
        members_model(final(members)@) == with_tool(members_model(old(members)@), *tool),
{
    push_member(members, "name", Json::text(tool.name.as_str()));
    push_member(members, "description", Json::text(tool.description.as_str()));
    push_member(members, "parameters", tool.parameters.copy());
}

/// A tool as it is sent.
fn tool_to_json(tool: &ToolDef) -> (json: Json)
    ensures
        json@ == tool_model(*tool),
{
    let mut function: Vec<(String, Json)> = Vec::new();
    push_tool(&mut function, tool);
    let mut members: Vec<(String, Json)> = Vec::new();
    push_member(&mut members, "type", Json::text("function"));
    push_member(&mut members, "function", Json::Object(function));
    push_tool(&mut members, tool);
    Json::Object(members)
}

/// The body of a request.
pub fn build_proxy_body(request: &LlmRequest) -> (body: Json)
    ensures
        body@ == JsonModel::Object(body_members(*request)),
{
    let mut members: Vec<(String, Json)> = Vec::new();
    push_member(&mut members, "model", Json::text(request.model.as_str()));
    push_member(&mut members, "stream", Json::Bool(true));
    push_member(&mut members, "message", Json::Str(last_user_message(&request.messages)));
    push_member(&mut members, "messages", Json::Array(request_messages(request)));

    if let Some(system) = &request.system {
        push_member(&mut members, "system", Json::text(system.as_str()));
        push_member(&mut members, "instructions", Json::text(system.as_str()));
    }
    if let Some(limit) = request.max_tokens {
        if limit > 0 {
            push_member(&mut members, "max_tokens", json_number(limit as u64));
            push_member(&mut members, "max_output_tokens", json_number(limit as u64));
        }
    }
    if let Some(temperature) = &request.temperature {
        push_member(&mut members, "temperature", temperature.copy());
    }
    if request.tools.len() > 0 {
        let mut tools: Vec<Json> = Vec::new();
        for i in 0..request.tools.len()
            invariant
                items_model(tools@) =~= request.tools@.take(i as int).map_values(
                    |tool: ToolDef| tool_model(tool),
                ),
        {
            let tool = tool_to_json(&request.tools[i]);
            proof {
                lemma_items_push(tools@, tool);
            }
            tools.push(tool);
        }
        assert(request.tools@.take(request.tools.len() as int) =~= request.tools@);
        push_member(&mut members, "tools", Json::Array(tools));
    }
    Json::Object(members)
}

} // verus!
