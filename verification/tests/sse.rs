use rsclaw::json::Json;
use rsclaw::provider::event::{ProxyError, StreamEvent};
use rsclaw::provider::sse::{data_of_line, events_of_data, parse_sse_chunk, parse_sse_text};

fn text(text: &str) -> Result<StreamEvent, ProxyError> {
    Ok(StreamEvent::TextDelta(text.to_owned()))
}

fn done() -> Result<StreamEvent, ProxyError> {
    Ok(StreamEvent::Done { usage: None })
}

fn feed(buffer: &mut String, bytes: &[u8]) -> Vec<Result<StreamEvent, ProxyError>> {
    parse_sse_chunk(Ok(bytes.to_vec()), buffer)
}

const STREAM: &str = ": hello\nevent: delta\ndata: {\"delta\": \"né\"}\r\n\nplain text \n{\"type\":\"done\"}\ndata: [DONE]\nrest";

#[test]
fn lines_carry_data() {
    assert_eq!(data_of_line("data: x \n"), Some("x"));
    assert_eq!(data_of_line("data:x"), Some("x"));
    assert_eq!(data_of_line("  data:  {} \r\n"), Some("{}"));
    assert_eq!(data_of_line("{}\n"), Some("{}"));
    assert_eq!(data_of_line("id: 7\n"), Some("id: 7"));
    assert_eq!(data_of_line("data:data: x\n"), Some("data: x"));
}

#[test]
fn some_lines_carry_no_data() {
    for line in ["", "\n", " \r\n", ": note\n", ":\n", "event: x\n", "event:\n", "data:\n",
        "data: [DONE]\n", "[DONE]\n", "data:   \n", " :note\n"]
    {
        assert_eq!(data_of_line(line), None, "{:?}", line);
    }
}

#[test]
fn data_is_json_or_text() {
    assert_eq!(events_of_data("x", None), vec![text("x")]);
    assert_eq!(events_of_data("null", Some(Json::Null)), vec![]);
}

#[test]
fn a_stream_is_read_line_by_line() {
    let mut buffer = String::new();
    let events = feed(&mut buffer, STREAM.as_bytes());
    assert_eq!(events, vec![text("né"), text("plain text"), done()]);
    assert_eq!(buffer, "rest");
}

#[test]
fn a_line_without_its_end_waits() {
    let mut buffer = String::new();
    assert_eq!(feed(&mut buffer, b"data: {\"del"), vec![]);
    assert_eq!(buffer, "data: {\"del");
    assert_eq!(feed(&mut buffer, b"ta\": \"x\"}"), vec![]);
    assert_eq!(feed(&mut buffer, b"\n"), vec![text("x")]);
    assert_eq!(buffer, "");
}

#[test]
fn the_cut_makes_no_difference() {
    let mut whole_buffer = String::new();
    let whole = feed(&mut whole_buffer, STREAM.as_bytes());
    for cut in 0..=STREAM.len() {
        if STREAM.is_char_boundary(cut) {
            let mut buffer = String::new();
            let mut events = feed(&mut buffer, &STREAM.as_bytes()[..cut]);
            events.extend(feed(&mut buffer, &STREAM.as_bytes()[cut..]));
            assert_eq!(events, whole);
            assert_eq!(buffer, whole_buffer);
        }
    }
    let mut buffer = String::new();
    let mut events = Vec::new();
    for c in STREAM.chars() {
        events.extend(parse_sse_text(&c.to_string(), &mut buffer));
    }
    assert_eq!(events, whole);
    assert_eq!(buffer, whole_buffer);
}

#[test]
fn a_character_that_is_cut_is_lost() {
    let mut buffer = String::new();
    assert_eq!(feed(&mut buffer, &[0xc3]), vec![]);
    assert_eq!(feed(&mut buffer, &[0xa9, b'\n']), vec![text("\u{fffd}\u{fffd}")]);
}

#[test]
fn bytes_that_are_not_utf8_are_repaired() {
    let mut buffer = String::new();
    assert_eq!(feed(&mut buffer, b"a\xffb\n"), vec![text("a\u{fffd}b")]);
}

#[test]
fn a_lost_chunk_is_reported_and_the_buffer_kept() {
    let mut buffer = String::new();
    feed(&mut buffer, b"half");
    let events = parse_sse_chunk(Err(ProxyError::stream_read("reset")), &mut buffer);
    assert_eq!(events, vec![Err(ProxyError::stream_read("reset"))]);
    assert_eq!(buffer, "half");
    assert_eq!(feed(&mut buffer, b" line\n"), vec![text("half line")]);
}

#[test]
fn whole_lines_in_the_buffer_are_read() {
    let mut buffer = "a\nb".to_owned();
    assert_eq!(parse_sse_text("", &mut buffer), vec![text("a")]);
    assert_eq!(buffer, "b");
}

#[test]
fn white_space_of_unicode_is_trimmed() {
    let mut buffer = String::new();
    assert_eq!(parse_sse_text("\u{a0}data:\u{3000}x\u{2028}\n", &mut buffer), vec![text("x")]);
}
