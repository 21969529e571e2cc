use rsclaw::json::{push_member, Json};
use rsclaw::json_value::{
    is_exact, json_from_value, json_number, json_text, parse_json, value_from_json, READABLE_DEPTH,
};

fn read(text: &str) -> Json {
    parse_json(text).unwrap()
}

#[test]
fn members_are_found_by_name() {
    let json = read(r#"{"a": 1, "b": {"c": "x"}, "n": null}"#);
    assert_eq!(json.get("a").and_then(|v| v.as_u64()), Some(1));
    assert_eq!(json.get("b").and_then(|v| v.get("c")).and_then(|v| v.as_str()), Some("x"));
    assert_eq!(json.get("n"), Some(&Json::Null));
    assert_eq!(json.get("z"), None);
    assert_eq!(read("[1]").get("0"), None);
    assert_eq!(read("\"a\"").get("a"), None);
}

#[test]
fn of_two_members_with_one_name_the_last_counts() {
    let mut members = Vec::new();
    push_member(&mut members, "a", Json::Bool(false));
    push_member(&mut members, "b", Json::Null);
    push_member(&mut members, "a", Json::Bool(true));
    let json = Json::Object(members);
    assert_eq!(json.get("a"), Some(&Json::Bool(true)));
    assert_eq!(json_text(&json), r#"{"a":true,"b":null}"#);
    assert_eq!(json_text(&json.copy()), r#"{"a":true,"b":null}"#);
    assert_eq!(read(r#"{"a": false, "a": true}"#).get("a"), Some(&Json::Bool(true)));
}

#[test]
fn paths_lead_through_objects_and_items() {
    let json = read(r#"{"choices": [{"delta": {"content": "x"}}, 7], "o": {"0": "zero"}}"#);
    assert_eq!(
        json.pointer(&["choices", "0", "delta", "content"]).and_then(|v| v.as_str()),
        Some("x")
    );
    assert_eq!(json.pointer(&["o", "0"]).and_then(|v| v.as_str()), Some("zero"));
    assert_eq!(json.pointer(&[]), Some(&json));
    assert_eq!(json.pointer(&["choices", "x"]), None);
    assert_eq!(json.pointer(&["choices", "0", "delta", "content", "more"]), None);
    assert_eq!(read("[]").child("0"), None);
    assert_eq!(read("[3]").child("0").and_then(|v| v.as_u64()), Some(3));
}

#[test]
fn whole_numbers_are_read_and_others_are_not() {
    assert_eq!(read("18446744073709551615").as_u64(), Some(u64::MAX));
    assert_eq!(read("0").as_u64(), Some(0));
    assert_eq!(read("-1").as_u64(), None);
    assert_eq!(read("1.0").as_u64(), None);
    assert_eq!(read("18446744073709551616").as_u64(), None);
    assert_eq!(read("\"1\"").as_u64(), None);
    assert_eq!(json_number(42).as_u64(), Some(42));
    assert_eq!(json_text(&json_number(42)), "42");
    assert_eq!(read("1").as_str(), None);
}

#[test]
fn text_that_is_not_json_is_not_read() {
    for text in ["", "x", "{", "[1,]", "{\"a\":}", "1 2", "'a'", "nul"] {
        assert_eq!(parse_json(text), None, "{}", text);
    }
    assert_eq!(parse_json(" true "), Some(Json::Bool(true)));
}

#[test]
fn values_are_written_compactly() {
    let json = read(" { \"b\" : [ 1 , 2.5 , -3 , null , true ] , \"a\" : \"q\\\"\\n\" } ");
    assert_eq!(json_text(&json), r#"{"a":"q\"\n","b":[1,2.5,-3,null,true]}"#);
}

#[test]
fn conversion_there_and_back_keeps_the_value() {
    let text = r#"{"a":[0.1,1e300,-7,12345678901234567890,{"x":[]}],"b":"é","c":{},"d":false}"#;
    let value: serde_json::Value = serde_json::from_str(text).unwrap();
    let json = json_from_value(value.clone());
    assert_eq!(value_from_json(&json), value);
    assert_eq!(value_from_json(&json.copy()), value);
    assert_eq!(json_from_value(value_from_json(&json)), json);
}

#[test]
fn a_string_is_a_string() {
    assert_eq!(Json::text("a").as_str(), Some("a"));
    assert_eq!(json_text(&Json::text("a")), "\"a\"");
}

#[test]
fn an_index_is_decimal_without_sign_or_leading_zero() {
    let items: Vec<String> = (0..12).map(|i| i.to_string()).collect();
    let text = format!("[{}]", items.join(","));
    let json = read(&text);
    let value: serde_json::Value = serde_json::from_str(&text).unwrap();
    for token in [
        "0", "1", "9", "10", "11", "12", "00", "01", "+1", "-1", "-0", "", " 1", "1 ", "1x", "x",
        "0x1", "1.0", "\u{0661}", "18446744073709551616", "184467440737095516160000000000000000001",
    ] {
        let pointed = value.pointer(&format!("/{}", token));
        let found = json.child(token).map(value_from_json);
        assert_eq!(found.as_ref(), pointed, "{:?}", token);
    }
    assert_eq!(json.child("11").and_then(|item| item.as_u64()), Some(11));
    assert_eq!(read("[[1],[2,3]]").pointer(&["1", "1"]).and_then(|v| v.as_u64()), Some(3));
    assert_eq!(read("{\"1\":2}").child("1").and_then(|v| v.as_u64()), Some(2));
}

#[test]
fn what_is_written_is_read_back() {
    let characters: String = (0..0x300u32).filter_map(char::from_u32).collect();
    let values = vec![
        Json::Null,
        Json::Bool(true),
        json_number(u64::MAX),
        read("-1"),
        read("-9223372036854775808"),
        Json::text(""),
        Json::text(&characters),
        Json::text("\u{2028}\u{fffd}\u{10ffff}"),
        Json::Array(Vec::new()),
        Json::Object(Vec::new()),
        read(r#"{"$serde_json::private::Number": "1", "a": [{"": [null, -7]}]}"#),
    ];
    for value in values {
        assert!(is_exact(&value, READABLE_DEPTH));
        assert_eq!(parse_json(&json_text(&value)), Some(value));
    }
}

fn nested(depth: usize) -> Json {
    let mut json = json_number(1);
    for level in 0..depth {
        json = if level % 2 == 0 {
            Json::Array(vec![json])
        } else {
            Json::Object(vec![("a".to_owned(), json)])
        };
    }
    json
}

#[test]
fn what_is_nested_too_deep_is_not_read_back() {
    let deepest = nested(READABLE_DEPTH);
    assert!(is_exact(&deepest, READABLE_DEPTH));
    assert!(!is_exact(&deepest, READABLE_DEPTH - 1));
    assert_eq!(parse_json(&json_text(&deepest)), Some(deepest));
    let deeper = nested(READABLE_DEPTH + 1);
    assert!(!is_exact(&deeper, READABLE_DEPTH));
    assert_eq!(parse_json(&json_text(&deeper)), None);
}

#[test]
fn floats_are_not_exact() {
    assert!(is_exact(&read("3"), 0));
    assert!(is_exact(&read("-3"), 0));
    assert!(!is_exact(&read("3.0"), 0));
    assert!(!is_exact(&read("-0"), 0));
    assert!(!is_exact(&read("18446744073709551616"), 0));
    assert!(!is_exact(&read("[]"), 0));
    assert!(is_exact(&read("[]"), 1));
    assert!(!is_exact(&read(r#"[1, {"a": 0.5}]"#), 9));
    let replaced = Json::Object(vec![
        ("a".to_owned(), read("0.5")),
        ("a".to_owned(), json_number(1)),
    ]);
    assert!(is_exact(&replaced, 1));
}
