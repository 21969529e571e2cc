use rsclaw::json::Json;
use rsclaw::provider::codex_proxy::{plan_response, ResponsePlan};
use rsclaw::provider::event::{ProxyError, StreamEvent};
use rsclaw::provider::exchange::{Action, Arrival, Exchange};

fn head(status: u16, status_text: &str, content_type: Option<&str>) -> Arrival {
    Arrival::Head {
        status,
        status_text: status_text.to_owned(),
        content_type: content_type.map(str::to_owned),
    }
}

fn failed(action: Action) -> String {
    match action {
        Action::Fail(error) => error.message().to_owned(),
        other => panic!("{:?}", other),
    }
}

#[test]
fn answers_are_told_apart() {
    assert_eq!(plan_response(200, Some("application/json")), ResponsePlan::Json);
    assert_eq!(plan_response(299, Some("application/problem+json; x")), ResponsePlan::Json);
    assert_eq!(plan_response(200, Some("text/event-stream")), ResponsePlan::EventStream);
    assert_eq!(plan_response(200, Some("text/event-stream; json")), ResponsePlan::EventStream);
    assert_eq!(plan_response(200, Some("text/plain")), ResponsePlan::EventStream);
    assert_eq!(plan_response(200, Some("APPLICATION/JSON")), ResponsePlan::EventStream);
    assert_eq!(plan_response(200, None), ResponsePlan::EventStream);
    assert_eq!(plan_response(199, Some("application/json")), ResponsePlan::Fail);
    assert_eq!(plan_response(300, None), ResponsePlan::Fail);
    assert_eq!(plan_response(500, Some("text/event-stream")), ResponsePlan::Fail);
}

#[test]
fn a_refusal_is_an_error_with_status_and_body() {
    let (refused, action) = Exchange::Sent.advance(head(502, "502 Bad Gateway", None));
    assert_eq!(action, Action::ReadText);
    let (over, action) = refused.advance(Arrival::Text("down".to_owned()));
    assert_eq!(over, Exchange::Over);
    assert_eq!(failed(action), "Codex proxy error 502 Bad Gateway: down");

    let (refused, _) = Exchange::Sent.advance(head(404, "404 Not Found", None));
    let (_, action) = refused.advance(Arrival::Nothing);
    assert_eq!(failed(action), "Codex proxy error 404 Not Found: ");
}

#[test]
fn a_request_that_does_not_arrive_fails() {
    let (over, action) = Exchange::Sent.advance(Arrival::Nothing);
    assert_eq!(over, Exchange::Over);
    assert_eq!(failed(action), "Codex proxy request failed");
}

#[test]
fn an_answer_in_one_piece_is_delivered() {
    let (piece, action) = Exchange::Sent.advance(head(200, "200 OK", Some("application/json")));
    assert_eq!(action, Action::ReadJson);
    let (over, action) = piece.advance(Arrival::Value(Json::Object(vec![(
        "text".to_owned(),
        Json::text("hi"),
    )])));
    assert_eq!(over, Exchange::Over);
    assert_eq!(
        action,
        Action::Deliver(vec![
            Ok(StreamEvent::TextDelta("hi".to_owned())),
            Ok(StreamEvent::Done { usage: None }),
        ])
    );
}

#[test]
fn an_answer_that_should_be_json_and_is_not_fails() {
    let (over, action) = Exchange::OnePiece.advance(Arrival::Nothing);
    assert_eq!(over, Exchange::Over);
    assert_eq!(failed(action), "Codex proxy: parse JSON response");
}

#[test]
fn a_stream_is_delivered_chunk_by_chunk() {
    let (stream, action) = Exchange::Sent.advance(head(200, "200 OK", Some("text/event-stream")));
    assert_eq!(action, Action::ReadChunks);
    let (stream, action) = stream.advance(Arrival::Chunk(Ok(b"data: a\nda".to_vec())));
    assert_eq!(action, Action::Deliver(vec![Ok(StreamEvent::TextDelta("a".to_owned()))]));
    let (stream, action) = stream.advance(Arrival::Chunk(Err("reset".to_owned())));
    assert_eq!(action, Action::Deliver(vec![Err(ProxyError::stream_read("reset"))]));
    assert_eq!(ProxyError::stream_read("reset").message(), "stream read error: reset");
    let (stream, action) = stream.advance(Arrival::Chunk(Ok(b"ta: b\n".to_vec())));
    assert_eq!(action, Action::Deliver(vec![Ok(StreamEvent::TextDelta("b".to_owned()))]));
    let (over, action) = stream.advance(Arrival::Nothing);
    assert_eq!((over, action), (Exchange::Over, Action::Deliver(vec![])));
}

#[test]
fn what_is_not_awaited_changes_nothing() {
    assert_eq!(
        Exchange::Sent.advance(Arrival::Text("x".to_owned())),
        (Exchange::Sent, Action::Ignore)
    );
    assert_eq!(Exchange::Over.advance(head(200, "200 OK", None)), (Exchange::Over, Action::Ignore));
    assert_eq!(Exchange::Over.advance(Arrival::Nothing), (Exchange::Over, Action::Ignore));
    assert_eq!(
        Exchange::OnePiece.advance(Arrival::Chunk(Ok(Vec::new()))),
        (Exchange::OnePiece, Action::Ignore)
    );
}
