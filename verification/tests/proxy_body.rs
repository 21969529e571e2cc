use rsclaw::json::Json;
use rsclaw::json_value::{json_text, parse_json};
use rsclaw::provider::message::{
    ContentPart, LlmRequest, Message, MessageContent, Role, ToolDef,
};
use rsclaw::provider::proxy_body::{
    build_proxy_body, content_to_parts, content_to_text, message_to_proxy_message,
    request_messages, role_to_str, tool_call_to_text,
};

fn said(role: Role, text: &str) -> Message {
    Message { role, content: MessageContent::Text(text.to_owned()) }
}

fn request(messages: Vec<Message>) -> LlmRequest {
    LlmRequest {
        model: "gpt-5.4-mini".to_owned(),
        messages,
        tools: Vec::new(),
        system: None,
        max_tokens: None,
        temperature: None,
    }
}

fn all_parts() -> MessageContent {
    MessageContent::Parts(vec![
        ContentPart::Text { text: "look".to_owned() },
        ContentPart::Image { url: "http://i/1.png".to_owned() },
        ContentPart::ToolUse {
            id: "t1".to_owned(),
            name: "grep".to_owned(),
            input: parse_json(r#"{"q": "x", "n": 1.5}"#).unwrap(),
        },
        ContentPart::ToolResult {
            tool_use_id: "t1".to_owned(),
            content: "found".to_owned(),
            is_error: Some(false),
        },
        ContentPart::ToolResult {
            tool_use_id: "t2".to_owned(),
            content: "".to_owned(),
            is_error: None,
        },
    ])
}

#[test]
fn roles_have_their_names() {
    assert_eq!(role_to_str(&Role::System), "system");
    assert_eq!(role_to_str(&Role::User), "user");
    assert_eq!(role_to_str(&Role::Assistant), "assistant");
    assert_eq!(role_to_str(&Role::Tool), "tool");
}

#[test]
fn content_is_put_into_one_text() {
    assert_eq!(content_to_text(&MessageContent::Text("hi".to_owned())), "hi");
    assert_eq!(
        content_to_text(&all_parts()),
        "look\n[image: http://i/1.png]\n[tool_call: grep {\"n\":1.5,\"q\":\"x\"}]\nfound\n"
    );
    assert_eq!(content_to_text(&MessageContent::Parts(Vec::new())), "");
    assert_eq!(tool_call_to_text("f", "{}"), "[tool_call: f {}]");
}

#[test]
fn content_is_sent_in_parts() {
    assert_eq!(
        json_text(&content_to_parts(&MessageContent::Text("hi".to_owned()))),
        r#"[{"text":"hi","type":"text"}]"#
    );
    assert_eq!(
        json_text(&content_to_parts(&all_parts())),
        concat_text(&[
            r#"[{"text":"look","type":"text"},"#,
            r#"{"type":"image","url":"http://i/1.png"},"#,
            r#"{"id":"t1","input":{"n":1.5,"q":"x"},"name":"grep","type":"tool_use"},"#,
            r#"{"content":"found","is_error":false,"tool_use_id":"t1","type":"tool_result"},"#,
            r#"{"content":"","is_error":null,"tool_use_id":"t2","type":"tool_result"}]"#,
        ])
    );
    assert_eq!(json_text(&content_to_parts(&MessageContent::Parts(Vec::new()))), "[]");
}

fn concat_text(pieces: &[&str]) -> String {
    pieces.concat()
}

#[test]
fn a_message_has_role_content_and_parts() {
    assert_eq!(
        json_text(&message_to_proxy_message(&said(Role::Assistant, "ok"))),
        r#"{"content":"ok","parts":[{"text":"ok","type":"text"}],"role":"assistant"}"#
    );
}

#[test]
fn the_system_prompt_is_the_first_message() {
    let mut req = request(vec![said(Role::User, "a"), said(Role::Assistant, "b")]);
    assert_eq!(request_messages(&req).len(), 2);
    req.system = Some("be brief".to_owned());
    let messages = request_messages(&req);
    assert_eq!(messages.len(), 3);
    assert_eq!(json_text(&messages[0]), r#"{"content":"be brief","role":"system"}"#);
    assert_eq!(messages[1].get("content").and_then(|v| v.as_str()), Some("a"));
    assert_eq!(messages[2].get("role").and_then(|v| v.as_str()), Some("assistant"));
}

#[test]
fn a_plain_body_has_four_members() {
    let body = build_proxy_body(&request(vec![said(Role::User, "hi")]));
    assert_eq!(
        json_text(&body),
        concat_text(&[
            r#"{"message":"hi","messages":["#,
            r#"{"content":"hi","parts":[{"text":"hi","type":"text"}],"role":"user"}],"#,
            r#""model":"gpt-5.4-mini","stream":true}"#,
        ])
    );
}

#[test]
fn the_message_is_what_the_user_said_last() {
    let body = build_proxy_body(&request(vec![
        said(Role::User, "first"),
        said(Role::User, "second"),
        said(Role::Assistant, "answer"),
        said(Role::Tool, "result"),
    ]));
    assert_eq!(body.get("message").and_then(|v| v.as_str()), Some("second"));
    let body = build_proxy_body(&request(vec![said(Role::Assistant, "answer")]));
    assert_eq!(body.get("message").and_then(|v| v.as_str()), Some(""));
}

#[test]
fn the_system_prompt_is_no_message_of_the_user() {
    let mut req = request(Vec::new());
    req.system = Some("user".to_owned());
    let body = build_proxy_body(&req);
    assert_eq!(body.get("message").and_then(|v| v.as_str()), Some(""));
    assert_eq!(body.get("system").and_then(|v| v.as_str()), Some("user"));
    assert_eq!(body.get("instructions").and_then(|v| v.as_str()), Some("user"));
}

#[test]
fn limits_are_sent_under_both_names() {
    let mut req = request(Vec::new());
    req.max_tokens = Some(4096);
    let body = build_proxy_body(&req);
    assert_eq!(body.get("max_tokens").and_then(|v| v.as_u64()), Some(4096));
    assert_eq!(body.get("max_output_tokens").and_then(|v| v.as_u64()), Some(4096));
    req.max_tokens = Some(0);
    let body = build_proxy_body(&req);
    assert_eq!(body.get("max_tokens"), None);
    assert_eq!(body.get("max_output_tokens"), None);
    req.max_tokens = Some(u32::MAX);
    let body = build_proxy_body(&req);
    assert_eq!(body.get("max_tokens").and_then(|v| v.as_u64()), Some(u32::MAX as u64));
}

#[test]
fn the_temperature_is_sent_as_it_is() {
    let mut req = request(Vec::new());
    assert_eq!(build_proxy_body(&req).get("temperature"), None);
    req.temperature = parse_json("0.7");
    assert_eq!(build_proxy_body(&req).get("temperature").map(json_text), Some("0.7".to_owned()));
    req.temperature = Some(Json::Null);
    assert_eq!(build_proxy_body(&req).get("temperature"), Some(&Json::Null));
}

#[test]
fn tools_are_described_twice() {
    let mut req = request(Vec::new());
    assert_eq!(build_proxy_body(&req).get("tools"), None);
    req.tools = vec![ToolDef {
        name: "grep".to_owned(),
        description: "search".to_owned(),
        parameters: parse_json(r#"{"type": "object"}"#).unwrap(),
    }];
    assert_eq!(
        build_proxy_body(&req).get("tools").map(json_text),
        Some(concat_text(&[
            r#"[{"description":"search","function":{"description":"search","name":"grep","#,
            r#""parameters":{"type":"object"}},"name":"grep","parameters":{"type":"object"},"#,
            r#""type":"function"}]"#,
        ]))
    );
}
