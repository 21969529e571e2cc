use rsclaw::json::Json;
use rsclaw::json_value::{json_text, parse_json};
use rsclaw::provider::event::{ProxyError, StreamEvent, TokenUsage};
use rsclaw::provider::proxy_event::{
    extract_text, parse_json_event, parse_json_response, parse_tool_call, parsed_or_raw,
    usage_from_value,
};

fn read(text: &str) -> Json {
    parse_json(text).unwrap()
}

fn text_event(text: &str) -> Vec<Result<StreamEvent, ProxyError>> {
    vec![Ok(StreamEvent::TextDelta(text.to_owned()))]
}

fn call(text: &str) -> Option<(String, String, String)> {
    match parse_tool_call(&read(text)) {
        Some(StreamEvent::ToolCall { id, name, input }) => Some((id, name, json_text(&input))),
        Some(other) => panic!("{:?}", other),
        None => None,
    }
}

fn triple(id: &str, name: &str, input: &str) -> Option<(String, String, String)> {
    Some((id.to_owned(), name.to_owned(), input.to_owned()))
}

#[test]
fn text_is_found_at_each_of_its_places() {
    for text in [
        r#"{"delta": "t"}"#,
        r#"{"text": "t"}"#,
        r#"{"content": "t"}"#,
        r#"{"message": "t"}"#,
        r#"{"response": {"output_text": "t"}}"#,
        r#"{"output": [{"content": [{"text": "t"}]}]}"#,
        r#"{"choices": [{"delta": {"content": "t"}}]}"#,
        r#"{"choices": [{"message": {"content": "t"}}]}"#,
    ] {
        assert_eq!(extract_text(&read(text)), Some("t".to_owned()), "{}", text);
    }
    assert_eq!(extract_text(&read(r#"{"texts": "t"}"#)), None);
    assert_eq!(extract_text(&read(r#"{"delta": 1}"#)), None);
    assert_eq!(extract_text(&read(r#"["t"]"#)), None);
}

#[test]
fn the_first_string_decides_even_if_it_is_empty() {
    assert_eq!(extract_text(&read(r#"{"text": "b", "delta": "a"}"#)), Some("a".to_owned()));
    assert_eq!(extract_text(&read(r#"{"delta": "", "text": "b"}"#)), None);
    assert_eq!(extract_text(&read(r#"{"delta": null, "text": "b"}"#)), Some("b".to_owned()));
    assert_eq!(
        extract_text(&read(r#"{"delta": {"text": "x"}, "content": "c"}"#)),
        Some("c".to_owned())
    );
}

#[test]
fn usage_is_found_under_either_name() {
    let found = |text: &str| usage_from_value(&read(text));
    assert_eq!(found("{}"), None);
    assert_eq!(
        found(r#"{"usage": {"input_tokens": 3, "output_tokens": 4}}"#),
        Some(TokenUsage { input: 3, output: 4 })
    );
    assert_eq!(
        found(r#"{"response": {"usage": {"prompt_tokens": 5, "completion_tokens": 6}}}"#),
        Some(TokenUsage { input: 5, output: 6 })
    );
    assert_eq!(
        found(r#"{"usage": {"input_tokens": 1}, "response": {"usage": {"input_tokens": 2}}}"#),
        Some(TokenUsage { input: 1, output: 0 })
    );
    assert_eq!(found(r#"{"usage": null}"#), Some(TokenUsage { input: 0, output: 0 }));
    assert_eq!(
        found(r#"{"usage": {"input_tokens": "x", "prompt_tokens": 9, "output_tokens": -1}}"#),
        Some(TokenUsage { input: 0, output: 0 })
    );
}

#[test]
fn counts_keep_their_low_32_bits() {
    assert_eq!(
        usage_from_value(&read(
            r#"{"usage": {"input_tokens": 4294967295, "output_tokens": 4294967301}}"#
        )),
        Some(TokenUsage { input: u32::MAX, output: 5 })
    );
}

#[test]
fn completions_are_done() {
    for kind in ["done", "complete", "completed", "response.completed"] {
        for member in ["type", "event"] {
            let text = format!(r#"{{"{}": "{}", "delta": "ignored"}}"#, member, kind);
            assert_eq!(
                parse_json_event(&read(&text)),
                vec![Ok(StreamEvent::Done { usage: None })],
                "{}",
                text
            );
        }
    }
    assert_eq!(
        parse_json_event(&read(
            r#"{"type": "response.completed", "response": {"usage": {"input_tokens": 1}}}"#
        )),
        vec![Ok(StreamEvent::Done { usage: Some(TokenUsage { input: 1, output: 0 }) })]
    );
}

#[test]
fn failures_say_what_went_wrong() {
    let said = |text: &str| parse_json_event(&read(text));
    let error = |text: &str| vec![Ok(StreamEvent::Error(text.to_owned()))];
    assert_eq!(
        said(r#"{"type": "error", "error": {"message": "a"}, "message": "b"}"#),
        error("a")
    );
    assert_eq!(said(r#"{"type": "response.failed", "message": "b"}"#), error("b"));
    assert_eq!(said(r#"{"event": "error"}"#), error("Codex proxy stream error"));
    assert_eq!(
        said(r#"{"type": "error", "error": {"message": 1}, "message": "b"}"#),
        error("Codex proxy stream error")
    );
}

#[test]
fn text_events_bring_text() {
    for kind in ["response.output_text.delta", "text_delta", "delta", "message", "other"] {
        let text = format!(r#"{{"type": "{}", "delta": "x"}}"#, kind);
        assert_eq!(parse_json_event(&read(&text)), text_event("x"));
    }
    assert_eq!(parse_json_event(&read(r#"{"delta": "x"}"#)), text_event("x"));
    assert_eq!(parse_json_event(&read(r#"{"type": "delta", "delta": ""}"#)), vec![]);
    assert_eq!(parse_json_event(&read("{}")), vec![]);
    assert_eq!(parse_json_event(&read("7")), vec![]);
}

#[test]
fn a_type_that_is_no_string_hides_the_event_member() {
    assert_eq!(parse_json_event(&read(r#"{"type": 1, "event": "done"}"#)), vec![]);
}

#[test]
fn tool_calls_come_before_text_unless_the_event_brings_text() {
    let plain = r#"{"type": "tool_call", "name": "f", "text": "t"}"#;
    match &parse_json_event(&read(plain))[..] {
        [Ok(StreamEvent::ToolCall { name, .. })] => assert_eq!(name, "f"),
        other => panic!("{:?}", other),
    }
    let item = r#"{"type": "delta", "delta": "t", "item": {"type": "tool_call", "name": "f"}}"#;
    assert_eq!(parse_json_event(&read(item)), text_event("t"));
    let silent = r#"{"type": "message", "item": {"type": "tool_call", "name": "f"}}"#;
    assert_eq!(parse_json_event(&read(silent)).len(), 1);
}

#[test]
fn tool_calls_are_read() {
    assert_eq!(
        call(r#"{"type": "function_call", "call_id": "c", "id": "i", "name": "f", "arguments": {"a": 1}}"#),
        triple("c", "f", r#"{"a":1}"#)
    );
    assert_eq!(
        call(r#"{"item": {"type": "tool_call", "id": "i", "name": "f", "input": [1]}}"#),
        triple("i", "f", "[1]")
    );
    assert_eq!(call(r#"{"type": "tool_call", "name": "f"}"#), triple("call_codex", "f", "{}"));
    assert_eq!(
        call(r#"{"type": "tool_call", "call_id": 1, "id": "i", "name": "f"}"#),
        triple("call_codex", "f", "{}")
    );
    assert_eq!(call(r#"{"type": "tool_call"}"#), None);
    assert_eq!(call(r#"{"type": "other", "name": "f"}"#), None);
    assert_eq!(call(r#"{"name": "f"}"#), None);
    assert_eq!(call(r#"{"type": "tool_call", "name": "f", "item": {}}"#), None);
}

#[test]
fn arguments_in_a_text_are_read_or_kept_raw() {
    assert_eq!(
        call(r#"{"type": "tool_call", "name": "f", "arguments": "{\"b\": 2, \"a\": 0.5}"}"#),
        triple("call_codex", "f", r#"{"a":0.5,"b":2}"#)
    );
    assert_eq!(
        call(r#"{"type": "tool_call", "name": "f", "arguments": "not json"}"#),
        triple("call_codex", "f", r#"{"raw":"not json"}"#)
    );
    assert_eq!(json_text(&parsed_or_raw("x", None)), r#"{"raw":"x"}"#);
    assert_eq!(parsed_or_raw("x", Some(Json::Null)), Json::Null);
}

#[test]
fn an_answer_in_one_piece_is_text_and_done() {
    let value = read(
        r#"{"choices": [{"message": {"content": "hi"}}], "usage": {"prompt_tokens": 2, "completion_tokens": 1}}"#,
    );
    assert_eq!(
        parse_json_response(&value),
        vec![
            Ok(StreamEvent::TextDelta("hi".to_owned())),
            Ok(StreamEvent::Done { usage: Some(TokenUsage { input: 2, output: 1 }) }),
        ]
    );
    assert_eq!(
        parse_json_response(&read("null")),
        vec![Ok(StreamEvent::Done { usage: None })]
    );
}

#[test]
fn arguments_may_be_given_as_a_value_or_as_its_text() {
    for arguments in [r#"{"b":[-1,null,{"c":"\"q\"\n"}],"a":18446744073709551615}"#, "[]", "7", "null"] {
        let value = read(arguments);
        let text = json_text(&Json::text(&json_text(&value)));
        let given = format!(r#"{{"type":"tool_call","name":"f","arguments":{}}}"#, arguments);
        let written = format!(r#"{{"type":"tool_call","name":"f","arguments":{}}}"#, text);
        assert_eq!(call(&given), triple("call_codex", "f", &json_text(&value)));
        assert_eq!(call(&written), call(&given));
        let (given, written) =
            (format!(r#"{{"item":{}}}"#, given), format!(r#"{{"item":{}}}"#, written));
        assert_eq!(call(&written), call(&given));
    }
}
