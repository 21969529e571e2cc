//! What holds of every exchange with the Codex proxy: where it is asked, and
//! what becomes of each thing that arrives.

use crate::json::{Json, JsonModel};
use crate::provider::codex_proxy::{codex_proxy, planned, proxy_url};
use crate::provider::event::{
    bad_status_message, outcome_model, outcomes_model, stream_read_message, EventModel,
    OutcomeModel, ProxyError, StreamEvent, TokenUsage,
};
use crate::provider::event_laws::{brings_text, first_text_is, law_an_answer_in_one_piece};
use crate::provider::exchange::{
    advanced, ActionModel, Arrival, ArrivalModel, Exchange, ExchangeModel,
};
use crate::provider::line_laws::{
    begins, law_a_chunk_is_the_text_that_it_encodes, law_one_line_is_read, lemma_begins,
};
use crate::provider::proxy_event::reported_usage;
use crate::provider::sse::{chunk_text, line_outcomes, read_text};
use crate::provider::sse_laws::{is_line, law_unfinished_line_waits, within_line};
use crate::text::occurs_in;
use crate::text_laws::{
    law_a_piece_occurs, law_trailing_characters_are_taken_off, law_what_occurs_is_a_piece,
};
use vstd::prelude::*;
use vstd::utf8::encode_utf8;

verus! {

/// The proxy is asked under the path behind the base address, with one slash
/// between them, however many the base address ends with and whether or not the
/// path begins with one.
pub proof fn law_the_address_is_base_and_path(
    base_url: Seq<char>,
    slashes: Seq<char>,
    path: Seq<char>,
)
    requires
        base_url.len() > 0 ==> base_url.last() != '/',
        forall|i: int| 0 <= i < slashes.len() ==> #[trigger] slashes[i] == '/',
    ensures
        path.len() > 0 && path[0] == '/' ==> proxy_url(base_url + slashes, path) == base_url + path,
        path.len() == 0 || path[0] != '/' ==> proxy_url(base_url + slashes, path)
            == base_url.push('/') + path,
{
    reveal_strlit("/");
    assert("/"@ =~= seq!['/']);
    law_trailing_characters_are_taken_off(base_url, '/', slashes);
    if path.len() > 0 && path[0] == '/' {
        assert(path.subrange(0, 1) =~= "/"@);
    } else {
        assert(!"/"@.is_prefix_of(path)) by {
            if "/"@.is_prefix_of(path) {
                assert(path.subrange(0, 1)[0] == '/');
            }
        }
        assert(base_url + ("/"@ + path) =~= base_url.push('/') + path);
    }
}

/// The user agent of a proxy is the one that was asked for, whatever the
/// environment says.
pub proof fn law_the_user_agent_is_the_one_asked_for(
    base_url: Seq<char>,
    user_agent: Option<Seq<char>>,
    vars: Map<Seq<char>, Seq<char>>,
)
    ensures
        codex_proxy(base_url, user_agent, vars).user_agent == user_agent,
{
}

/// Whether the piece stands in the text, with something or nothing around it.
pub open spec fn mentions(text: Seq<char>, piece: Seq<char>) -> bool {
    exists|before: Seq<char>, after: Seq<char>| text == #[trigger] (before + piece + after)
}

/// To occur is to be mentioned.
proof fn lemma_mentions(text: Seq<char>, piece: Seq<char>)
    ensures
        mentions(text, piece) <==> occurs_in(piece, text),
{
    if mentions(text, piece) {
        let (before, after) = choose|before: Seq<char>, after: Seq<char>|
            text == #[trigger] (before + piece + after);
        law_a_piece_occurs(before, piece, after);
    }
    if occurs_in(piece, text) {
        law_what_occurs_is_a_piece(piece, text);
    }
}

/// An answer is refused by its status alone; any other is one JSON value just
/// where its content type mentions `json` and no event stream, and else it is an
/// event stream.
pub proof fn law_answers_are_told_apart(status: u16, content_type: Seq<char>)
    ensures
        planned(status, content_type) is Fail <==> status < 200 || status >= 300,
        planned(status, content_type) is Json <==> 200 <= status < 300 && mentions(
            content_type,
            "json"@,
        ) && !mentions(content_type, "text/event-stream"@),
{
    lemma_mentions(content_type, "json"@);
    lemma_mentions(content_type, "text/event-stream"@);
}

/// Once the head of an answer is there, its text is read where it was refused,
/// its JSON where it is one value, and its chunks where it is a stream, of which
/// nothing has been read yet. A missing content type mentions nothing.
pub proof fn law_the_head_says_how_to_read_on(
    status: u16,
    status_text: Seq<char>,
    content_type: Option<Seq<char>>,
)
    ensures
        ({
            let (next, action) = advanced(
                ExchangeModel::Sent,
                ArrivalModel::Head { status, status_text, content_type },
            );
            let given = match content_type {
                Some(content_type) => content_type,
                None => Seq::empty(),
            };
            if status < 200 || status >= 300 {
                next == (ExchangeModel::Refused { status: status_text }) && action
                    == ActionModel::ReadText
            } else if mentions(given, "json"@) && !mentions(given, "text/event-stream"@) {
                next == ExchangeModel::OnePiece && action == ActionModel::ReadJson
            } else {
                next == (ExchangeModel::Streaming { line_buffer: Seq::empty() }) && action
                    == ActionModel::ReadChunks
            }
        }),
{
    let given = match content_type {
        Some(content_type) => content_type,
        None => Seq::empty(),
    };
    law_answers_are_told_apart(status, given);
}

/// What was awaited and did not come ends the exchange: with an error that says
/// what was awaited, or, where a stream was read, with nothing more.
pub proof fn law_what_does_not_come_ends_the_exchange(
    status: Seq<char>,
    line_buffer: Seq<char>,
)
    ensures
        advanced(ExchangeModel::Sent, ArrivalModel::Nothing) == (
            ExchangeModel::Over,
            ActionModel::Fail("Codex proxy request failed"@),
        ),
        advanced(ExchangeModel::Refused { status }, ArrivalModel::Nothing) == (
            ExchangeModel::Over,
            ActionModel::Fail("Codex proxy error "@ + status + ": "@ + Seq::<char>::empty()),
        ),
        advanced(ExchangeModel::OnePiece, ArrivalModel::Nothing) == (
            ExchangeModel::Over,
            ActionModel::Fail("Codex proxy: parse JSON response"@),
        ),
        advanced(ExchangeModel::Streaming { line_buffer }, ArrivalModel::Nothing) == (
            ExchangeModel::Over,
            ActionModel::Deliver(Seq::<OutcomeModel>::empty()),
        ),
{
}

/// A refusal is reported with the status and with all that the proxy said.
pub proof fn law_a_refusal_is_reported_whole(status: Seq<char>, body: Seq<char>)
    ensures
        advanced(ExchangeModel::Refused { status }, ArrivalModel::Text(body)) == (
            ExchangeModel::Over,
            ActionModel::Fail("Codex proxy error "@ + status + ": "@ + body),
        ),
{
}

/// An answer in one piece is delivered whole: its text as it stands, where it
/// brings some, and its completion. Then the exchange is over.
pub proof fn law_one_piece_is_delivered_whole(value: JsonModel, text: Seq<char>)
    ensures
        ({
            let (next, action) = advanced(ExchangeModel::OnePiece, ArrivalModel::Value(value));
            let done: OutcomeModel = Ok(EventModel::Done { usage: reported_usage(value) });
            let more: OutcomeModel = Ok(EventModel::TextDelta(text));
            &&& next == ExchangeModel::Over
            &&& first_text_is(value, text) && text.len() > 0 ==> action == ActionModel::Deliver(
                seq![more, done],
            )
            &&& !brings_text(value) ==> action == ActionModel::Deliver(seq![done])
        }),
{
    law_an_answer_in_one_piece(value, text);
}

/// A chunk that can be read is read after what was left over, and the exchange
/// goes on; one that cannot is reported for what it is.
pub proof fn law_chunks_are_read_as_they_come(
    line_buffer: Seq<char>,
    bytes: Seq<u8>,
    cause: Seq<char>,
)
    ensures
        ({
            let streaming = ExchangeModel::Streaming { line_buffer };
            let step = read_text(line_buffer, chunk_text(bytes));
            &&& advanced(streaming, ArrivalModel::Chunk(Ok(bytes))) == (
                ExchangeModel::Streaming { line_buffer: step.pending },
                ActionModel::Deliver(step.events),
            )
            &&& advanced(streaming, ArrivalModel::Chunk(Err(cause))) == (
                streaming,
                ActionModel::Deliver(
                    seq![Err::<EventModel, Seq<char>>("stream read error: "@ + cause)],
                ),
            )
        }),
{
}

/// A chunk that completes a line delivers what the line yields; one that does not
/// delivers nothing, and waits with what was left over.
pub proof fn law_a_line_is_delivered_when_it_ends(line_buffer: Seq<char>, text: Seq<char>)
    ensures
        ({
            let streaming = ExchangeModel::Streaming { line_buffer };
            let (next, action) = advanced(
                streaming,
                ArrivalModel::Chunk(Ok(encode_utf8(text))),
            );
            &&& is_line(line_buffer + text) ==> next == (ExchangeModel::Streaming {
                line_buffer: Seq::empty(),
            }) && action == ActionModel::Deliver(line_outcomes(line_buffer + text))
            &&& within_line(line_buffer + text) ==> next == (ExchangeModel::Streaming {
                line_buffer: line_buffer + text,
            }) && action == ActionModel::Deliver(Seq::<OutcomeModel>::empty())
        }),
{
    law_a_chunk_is_the_text_that_it_encodes(text);
    if is_line(line_buffer + text) {
        law_one_line_is_read(line_buffer, text);
    }
    if within_line(line_buffer + text) {
        law_unfinished_line_waits(line_buffer, text);
    }
}

/// Whether the exchange awaits what arrives.
pub open spec fn awaits(exchange: ExchangeModel, arrival: ArrivalModel) -> bool {
    match exchange {
        ExchangeModel::Sent => arrival is Head || arrival is Nothing,
        ExchangeModel::Refused { status } => arrival is Text || arrival is Nothing,
        ExchangeModel::OnePiece => arrival is Value || arrival is Nothing,
        ExchangeModel::Streaming { line_buffer } => arrival is Chunk || arrival is Nothing,
        ExchangeModel::Over => false,
    }
}

/// What is not awaited changes nothing, and only that is ignored.
pub proof fn law_only_what_is_not_awaited_is_ignored(
    exchange: ExchangeModel,
    arrival: ArrivalModel,
)
    ensures
        !awaits(exchange, arrival) ==> advanced(exchange, arrival) == (
            exchange,
            ActionModel::Ignore,
        ),
        awaits(exchange, arrival) ==> !(advanced(exchange, arrival).1 is Ignore),
{
}

/// An error says all that is known of it.
pub proof fn law_errors_say_all(status: Seq<char>, body: Seq<char>, cause: Seq<char>)
    ensures
        bad_status_message(status, body) == "Codex proxy error "@ + status + ": "@ + body,
        begins(stream_read_message(cause), "stream read error: "@),
        stream_read_message(cause) == "stream read error: "@ + cause,
{
    lemma_begins(stream_read_message(cause), "stream read error: "@);
}

/// A list of events and errors means each of them, in their order.
pub proof fn law_outcomes_mean_what_they_are(
    outcomes: Seq<Result<StreamEvent, ProxyError>>,
    i: int,
)
    requires
        0 <= i < outcomes.len(),
    ensures
        outcomes_model(outcomes).len() == outcomes.len(),
        outcomes[i] matches Ok(event) ==> outcomes_model(outcomes)[i] == Ok::<
            EventModel,
            Seq<char>,
        >(event@),
        outcomes[i] matches Err(error) ==> outcomes_model(outcomes)[i] == Err::<
            EventModel,
            Seq<char>,
        >(error@),
{
    assert(outcomes_model(outcomes)[i] == outcome_model(outcomes[i]));
}

/// An event means what it holds.
pub proof fn law_an_event_means_what_it_holds(
    text: String,
    id: String,
    name: String,
    input: Json,
    usage: Option<TokenUsage>,
)
    ensures
        StreamEvent::TextDelta(text)@ == EventModel::TextDelta(text@),
        StreamEvent::Error(text)@ == EventModel::Error(text@),
        (StreamEvent::Done { usage })@ == (EventModel::Done { usage }),
        (StreamEvent::ToolCall { id, name, input })@ == (EventModel::ToolCall {
            id: id@,
            name: name@,
            input: input@,
        }),
{
}

/// What arrives means what it holds, and so does an exchange.
pub proof fn law_an_arrival_means_what_it_holds(
    status: u16,
    text: String,
    content_type: Option<String>,
    value: Json,
    bytes: Vec<u8>,
)
    ensures
        (Arrival::Head { status, status_text: text, content_type })@ matches ArrivalModel::Head {
            status: s,
            status_text: t,
            content_type: c,
        } && s == status && t == text@ && (content_type matches Some(given) ==> c == Some(given@))
            && (content_type is None ==> c is None),
        Arrival::Text(text)@ == ArrivalModel::Text(text@),
        Arrival::Value(value)@ == ArrivalModel::Value(value@),
        Arrival::Chunk(Ok(bytes))@ == ArrivalModel::Chunk(Ok(bytes@)),
        Arrival::Chunk(Err(text))@ == ArrivalModel::Chunk(Err(text@)),
        (Exchange::Refused { status: text })@ == (ExchangeModel::Refused { status: text@ }),
        (Exchange::Streaming { line_buffer: text })@ == (ExchangeModel::Streaming {
            line_buffer: text@,
        }),
{
}

} // verus!
